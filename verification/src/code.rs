use vstd::prelude::*;

verus! {

/// The status codes this server answers with.
#[derive(Clone, Copy, Debug)]
pub enum Code {
    Code200,
    Code400,
    Code404,
    Code500,
}

impl Code {
    /// The text of the status line after the protocol version.
    pub open spec fn text(self) -> Seq<char> {
        match self {
            Code::Code200 => "200 OK"@,
            Code::Code400 => "400 Bad Request"@,
            Code::Code404 => "404 Not Found"@,
            Code::Code500 => "500 Internal Server Error"@,
        }
    }

    /// Whether a response with this status ends the connection whatever the
    /// client asked for.
    pub open spec fn forces_close(self) -> bool {
        self is Code400 || self is Code500
    }

    /// The status as it stands in the status line.
    pub fn to_str(&self) -> (text: &'static str)
        ensures
            text@ == self.text(),
    {
        match *self {
            Code::Code200 => "200 OK",
            Code::Code400 => "400 Bad Request",
            Code::Code404 => "404 Not Found",
            Code::Code500 => "500 Internal Server Error",
        }
    }

    /// True for the statuses after which the connection is closed.
    pub fn closes_connection(&self) -> (close: bool)
        ensures
            close == self.forces_close(),
    {
        match *self {
            Code::Code400 | Code::Code500 => true,
            Code::Code200 | Code::Code404 => false,
        }
    }
}

} // verus!
