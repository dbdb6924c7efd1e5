//! A readiness-based, non-blocking I/O notification core.
//!
//! The crate presents one portable programming model over the kernel's
//! readiness machinery: callers register I/O sources (or user-owned custom
//! sources) with a poller under a caller-chosen [`Token`], then block in a
//! single call that reports every source currently interesting.  Delivery
//! policy (edge or level triggering, optional oneshot) is defined by this
//! library and proved over its registration state machine.

mod awakener;
mod bits;
mod completion;
mod custom;
mod error;
mod event;
mod events;
mod filters;
mod io;
mod laws;
mod net;
mod poll;
mod registry;
mod selector;
mod sys;
mod token;
mod uds;
mod waker;

pub use crate::awakener::Awakener;
pub use crate::completion::CompletionSock;
pub use crate::completion::OpState;
pub use crate::completion::PortAction;
pub use crate::custom::CustomRegistration;
pub use crate::custom::SetReadiness;
pub use crate::error::MioError;
pub use crate::error::MioResult;
pub use crate::event::Interest;
pub use crate::events::Events;
pub use crate::filters::coalesce;
pub use crate::filters::eof_readiness;
pub use crate::filters::filter_change;
pub use crate::filters::filter_delta;
pub use crate::filters::FilterChange;
pub use crate::event::IoEvent;
pub use crate::event::PollOpt;
pub use crate::event::ReadHint;
pub use crate::laws::lemma_edge_non_duplication;
pub use crate::laws::lemma_level_persistence;
pub use crate::laws::lemma_no_event_after_deregister;
pub use crate::laws::lemma_oneshot_exhaustion;
pub use crate::laws::lemma_token_fidelity;
pub use crate::io::pipe;
pub use crate::io::read_slice;
pub use crate::io::write_slice;
pub use crate::io::IoAcceptor;
pub use crate::io::IoDesc;
pub use crate::io::IoHandle;
pub use crate::io::IoReader;
pub use crate::io::IoWriter;
pub use crate::io::NonBlock;
pub use crate::io::PipeReader;
pub use crate::io::PipeWriter;
pub use crate::net::clamp_ttl;
pub use crate::net::connect_started;
pub use crate::net::socket_failure;
pub use crate::net::InetAddr;
pub use crate::net::Shutdown;
pub use crate::net::TcpListener;
pub use crate::net::TcpStream;
pub use crate::net::UdpSocket;
pub use crate::poll::Poll;
pub use crate::selector::epoll_event_to_interest;
pub use crate::selector::ioevent_to_epoll;
pub use crate::selector::Selector;
pub use crate::uds::UnixDatagram;
pub use crate::uds::UnixListener;
pub use crate::uds::UnixStream;
pub use crate::token::Token;
pub use crate::waker::Waker;
