//! The decision logic of an off-screen CEF client: what each browser callback
//! does to the event queues, the audio stream, the frame pixels and the
//! permission requests that the host application works through.
//!
//! The callbacks themselves, the locks and the browser objects belong to the
//! application. It hands this library plain values and a borrow of the state
//! that it has locked; `None` stands for a lock that could not be taken.
//!
//! Where a contract takes such a borrow apart, as in
//! `event_queues matches Some(queues) ==> ..`, plain `queues` is the state
//! before the call and `final(queues)` the state after it.
//!
//! The modules whose names end in `_laws` state what holds of the callbacks for
//! every input. Where a law speaks of a call, `call_ensures(f, arguments, result)`
//! stands for any call of `f` that returns.

pub mod adblocking;
pub mod audio;
pub mod audio_laws;
pub mod client;
pub mod client_laws;
pub mod codes;
pub mod display;
pub mod downloads;
pub mod drag;
pub mod event_laws;
pub mod events;
pub mod label_laws;
pub mod navigation;
pub mod page_laws;
pub mod paint_laws;
pub mod permission_bits;
pub mod permission_laws;
pub mod permissions;
pub mod pixels;
pub mod render;
pub mod request_laws;
pub mod resource_laws;
pub mod transfer_laws;
pub mod view_laws;
