//! The transport adapter: what the two halves of the connection report to the
//! client engine that runs on top of them.
//!
//! The halves themselves only hold the sink and the source of frames. Moving
//! a frame is the caller's business; what the outcome of that means is
//! decided here.

use vstd::prelude::*;
use vstd::string::*;

verus! {

/// The transport's one error: the cause, as the text that stands for it in
/// diagnostics.
#[derive(Debug, PartialEq, Eq)]
pub struct Error(String);

impl View for Error {
    type V = Seq<char>;

    closed spec fn view(&self) -> Seq<char> {
        self.0@
    }
}

impl Error {
    /// The error for a failure of the underlying connection, given the debug
    /// text of that failure.
    pub fn from_error(cause: String) -> (error: Error)
        ensures
            error@ == cause@,
    {
        Error(cause)
    }

    /// The error for a source that ended without a frame.
    pub fn closed() -> (error: Error)
        ensures
            error@ == "Closed"@,
    {
        Error("Closed".to_owned())
    }

    /// The cause, as it was given.
    pub fn cause(&self) -> (cause: &str)
        ensures
            cause@ == self@,
    {
        self.0.as_str()
    }

    /// The line that shows this error to a reader.
    pub fn to_text(&self) -> (line: String)
        ensures
            line@ == "Errors: "@ + self@,
    {
        "Errors: ".to_owned().concat(self.0.as_str())
    }
}

/// What the receiving half hands to the client engine.
#[derive(Debug, PartialEq, Eq)]
pub enum ReceivedMessage {
    /// A frame of text.
    Text(String),
    /// A frame of raw bytes.
    Bytes(Vec<u8>),
    /// The answer to a ping.
    Pong,
}

/// The sending half: it holds the sink of outgoing frames.
pub struct Sender<T>(T);

impl<T> View for Sender<T> {
    type V = T;

    closed spec fn view(&self) -> T {
        self.0
    }
}

impl<T> Sender<T> {
    /// Wraps a sink.
    pub fn new(sink: T) -> (sender: Self)
        ensures
            sender@ == sink,
    {
        Sender(sink)
    }

    /// The sink, to push a frame into or to close.
    pub fn get_mut(&mut self) -> (sink: &mut T)
        ensures
            *sink == old(self)@,
            final(self)@ == *final(sink),
    {
        &mut self.0
    }

    /// What `send` reports once the sink has answered: success when the sink
    /// accepted the frame, else the sink's failure as a transport error.
    pub fn sent(&self, outcome: Result<(), String>) -> (report: Result<(), Error>)
        ensures
            match outcome {
                Ok(()) => report is Ok,
                Err(cause) => report matches Err(error) && error@ == cause@,
            },
    {
        match outcome {
            Ok(()) => Ok(()),
            Err(cause) => Err(Error::from_error(cause)),
        }
    }

    /// What `close` reports once the sink has answered: success when the
    /// output was ended, else the sink's failure as a transport error.
    pub fn closed(&self, outcome: Result<(), String>) -> (report: Result<(), Error>)
        ensures
            match outcome {
                Ok(()) => report is Ok,
                Err(cause) => report matches Err(error) && error@ == cause@,
            },
    {
        match outcome {
            Ok(()) => Ok(()),
            Err(cause) => Err(Error::from_error(cause)),
        }
    }
}

/// The receiving half: it holds the source of decoded frames.
pub struct Receiver<T>(T);

impl<T> View for Receiver<T> {
    type V = T;

    closed spec fn view(&self) -> T {
        self.0
    }
}

impl<T> Receiver<T> {
    /// Wraps a source.
    pub fn new(stream: T) -> (receiver: Self)
        ensures
            receiver@ == stream,
    {
        Receiver(stream)
    }

    /// The source, to draw the next frame from.
    pub fn get_mut(&mut self) -> (stream: &mut T)
        ensures
            *stream == old(self)@,
            final(self)@ == *final(stream),
    {
        &mut self.0
    }

    /// What `receive` reports for the next item of the source.
    ///
    /// A frame is handed on as text. A source that has ended gives the
    /// `Closed` error, which is how the client engine learns that the
    /// connection is lost. A failure of the source gives a transport error
    /// with that failure as its cause.
    pub fn received(&self, item: Option<Result<String, String>>) -> (report: Result<
        ReceivedMessage,
        Error,
    >)
        ensures
            match item {
                Some(Ok(frame)) => report == Ok::<ReceivedMessage, Error>(
                    ReceivedMessage::Text(frame),
                ),
                Some(Err(cause)) => report matches Err(error) && error@ == cause@,
                None => report matches Err(error) && error@ == "Closed"@,
            },
    {
        match item {
            Some(Ok(frame)) => Ok(ReceivedMessage::Text(frame)),
            Some(Err(cause)) => Err(Error::from_error(cause)),
            None => Err(Error::closed()),
        }
    }
}

} // verus!
