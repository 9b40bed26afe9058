//! The session's error taxonomy.
//!
//! Initialization errors surface through the open path before the worker
//! signals readiness; timeouts are recoverable; runtime fatal errors stop
//! the worker and flip the exit signal.

use vstd::prelude::*;
use vstd::string::StringExecFns;

verus! {

/// Every failure the pipeline reports to its caller.
#[derive(Debug)]
pub enum Error {
    /// The worker did not signal successful initialization in time.
    InitTimeout,
    /// A frame was requested from a session whose exit signal is set.
    NotRunning,
    /// The receive wait elapsed with the queue still empty; the session
    /// stays usable.
    Timeout,
    /// The handoff queue is disconnected: one side is gone.
    Closed,
    /// The demuxer found no video stream to work with.
    NoVideoStream,
    /// The stream's codec is not one the keyframe gate recognizes; carries
    /// the codec's name.
    UnsupportedCodec(String),
    /// A native demux, decode, convert or filter failure; carries the
    /// collaborator's message.
    Native(String),
}

impl Error {
    /// A human-readable description of the error.
    pub fn message(&self) -> (r: String)
        ensures
            self is InitTimeout ==> r@ == "worker initialization timed out"@,
            self is NotRunning ==> r@ == "worker thread is not running"@,
            self is Timeout ==> r@ == "receive timed out"@,
            self is Closed ==> r@ == "handoff queue is disconnected"@,
            self is NoVideoStream ==> r@ == "cannot discover the best suitable video stream to work with"@,
            self matches Error::UnsupportedCodec(c) ==> r@ == "unsupported video codec detected: "@
                + c@,
            self matches Error::Native(m) ==> r@ == "native failure: "@ + m@,
    {
        match self {
            Error::InitTimeout => "worker initialization timed out".to_owned(),
            Error::NotRunning => "worker thread is not running".to_owned(),
            Error::Timeout => "receive timed out".to_owned(),
            Error::Closed => "handoff queue is disconnected".to_owned(),
            Error::NoVideoStream => {
                "cannot discover the best suitable video stream to work with".to_owned()
            },
            Error::UnsupportedCodec(c) => {
                let mut s = "unsupported video codec detected: ".to_owned();
                s.append(c.as_str());
                s
            },
            Error::Native(m) => {
                let mut s = "native failure: ".to_owned();
                s.append(m.as_str());
                s
            },
        }
    }
}

} // verus!
