use vstd::prelude::*;

verus! {

/// An error raised while wiring the application together, carrying a plain text.
#[derive(Debug)]
pub struct GenericError {
    msg: String,
}

impl GenericError {
    /// The text this error was made with.
    pub closed spec fn msg_view(&self) -> Seq<char> {
        self.msg@
    }

    /// The text shown for this error: `Config parsing error: ` and the message.
    pub fn to_text(&self) -> (r: String)
        ensures
            r@ == "Config parsing error: "@ + self.msg_view(),
    {
        let mut text = String::from_str("Config parsing error: ");
        proof {
            assert(text@ == "Config parsing error: "@);
        }
        text.append(self.msg.as_str());
        text
    }

    pub fn new(s: &str) -> (r: Box<Self>)
        ensures
            r.msg_view() == s@,
    {
        Box::new(GenericError { msg: String::from_str(s) })
    }

    /// The text this error was made with.
    pub fn message(&self) -> (r: &str)
        ensures
            r@ == self.msg_view(),
    {
        self.msg.as_str()
    }
}

/// A configuration value that does not have the expected shape.
#[derive(Debug)]
pub struct ParseError {
    msg: String,
}

impl ParseError {
    /// The text this error was made with.
    pub closed spec fn msg_view(&self) -> Seq<char> {
        self.msg@
    }

    /// The text shown for this error: `Config parsing error: ` and the message.
    pub fn to_text(&self) -> (r: String)
        ensures
            r@ == "Config parsing error: "@ + self.msg_view(),
    {
        let mut text = String::from_str("Config parsing error: ");
        proof {
            assert(text@ == "Config parsing error: "@);
        }
        text.append(self.msg.as_str());
        text
    }

    pub fn new(s: &str) -> (r: Box<ParseError>)
        ensures
            r.msg_view() == s@,
    {
        Box::new(ParseError { msg: String::from_str(s) })
    }

    /// The text this error was made with.
    pub fn message(&self) -> (r: &str)
        ensures
            r@ == self.msg_view(),
    {
        self.msg.as_str()
    }
}

/// Why a poll failed: the provider could not be reached, or it answered with
/// data of an unexpected shape.
#[derive(Debug)]
pub enum PollError {
    Transport(String),
    MalformedResponse(String),
}

impl PollError {
    pub open spec fn text(&self) -> Seq<char> {
        match self {
            PollError::Transport(s) => s@,
            PollError::MalformedResponse(s) => s@,
        }
    }

    /// The text carried by the error.
    pub fn describe(&self) -> (r: String)
        ensures
            r@ == self.text(),
    {
        match self {
            PollError::Transport(s) => s.clone(),
            PollError::MalformedResponse(s) => s.clone(),
        }
    }
}

/// Why a delivery failed: the sink rejected the message, or exclusive access to
/// a shared sink could not be had.
#[derive(Debug)]
pub enum DeliveryError {
    Rejected(String),
    LockAcquisition(String),
}

impl DeliveryError {
    pub open spec fn text(&self) -> Seq<char> {
        match self {
            DeliveryError::Rejected(s) => s@,
            DeliveryError::LockAcquisition(s) => s@,
        }
    }

    /// The text carried by the error.
    pub fn describe(&self) -> (r: String)
        ensures
            r@ == self.text(),
    {
        match self {
            DeliveryError::Rejected(s) => s.clone(),
            DeliveryError::LockAcquisition(s) => s.clone(),
        }
    }
}

/// Why the sink registry could not be built or resolved.
#[derive(Debug)]
pub enum RegistryError {
    /// A sink of a kind that has no delivery implementation, by name.
    UnsupportedSink(String),
    /// A subscription names no registered sink.
    UnknownSink(String),
}

} // verus!
