//! The client's channel to a server: its errors, the transport it reads and
//! writes through, and its limit on calls in flight.

use vstd::prelude::*;

verus! {

/// `std::io::Error`, carried by a channel error.
#[verifier::external_type_specification]
#[verifier::external_body]
pub struct ExIoError(std::io::Error);

/// An error in sending a request or receiving its response.
#[derive(Debug)]
pub enum ChannelError {
    /// The number of pending calls reached the concurrency limit.
    ConcurrencyLimitReached,
    /// An I/O error of the connection.
    IoError(std::io::Error),
    /// Another error.
    UnknownError,
}

/// The message of an I/O error, as it displays.
#[verifier::external_body]
fn io_error_text(e: &std::io::Error) -> (r: String) {
    format!("{}", e)
}

impl ChannelError {
    /// A short description of the kind of error.
    pub fn description(&self) -> (r: &'static str)
        ensures
            r@ == match self {
                ChannelError::ConcurrencyLimitReached => "concurrency limit reached"@,
                ChannelError::IoError(_) => "io error from TCP socket"@,
                ChannelError::UnknownError => "[WIP] other errors"@,
            },
    {
        match self {
            ChannelError::ConcurrencyLimitReached => "concurrency limit reached",
            ChannelError::IoError(_) => "io error from TCP socket",
            ChannelError::UnknownError => "[WIP] other errors",
        }
    }

    /// The message; for an I/O error it ends with that error's message.
    pub fn to_string(&self) -> (r: String)
        ensures
            match self {
                ChannelError::ConcurrencyLimitReached => r@ == "Concurrency limit reached"@,
                ChannelError::IoError(_) => r@.len() >= 10 && r@.subrange(0, 10) == "Io error: "@,
                ChannelError::UnknownError => r@ == "other errors might be worth discussion"@,
            },
    {
        let mut out: Vec<char> = Vec::new();
        match self {
            ChannelError::ConcurrencyLimitReached => crate::text::push_str(&mut out, "Concurrency limit reached"),
            ChannelError::IoError(e) => {
                crate::text::push_str(&mut out, "Io error: ");
                let t = io_error_text(e);
                crate::text::push_str(&mut out, t.as_str());
                proof {
                    reveal_strlit("Io error: ");
                }
                assert(out@.subrange(0, 10) =~= "Io error: "@);
            },
            ChannelError::UnknownError => crate::text::push_str(&mut out, "other errors might be worth discussion"),
        }
        crate::text::string_from_chars(out.as_slice())
    }
}

/// The transport of a channel: passes packages between the channel and the
/// connection.
#[derive(Debug)]
pub struct Transport<T> {
    io: T,
}

impl<T> Transport<T> {
    /// A transport over `io`.
    pub fn new(io: T) -> (r: Self)
        ensures
            r.inner() == io,
    {
        Transport { io }
    }

    /// The connection, in specifications.
    pub closed spec fn inner(&self) -> T {
        self.io
    }

    /// The connection.
    pub fn get_mut(&mut self) -> (r: &mut T)
        ensures
            *r == old(self).inner(),
            final(self).inner() == *final(r),
    {
        &mut self.io
    }

    /// The connection, giving up the transport.
    pub fn into_inner(self) -> (r: T)
        ensures
            r == self.inner(),
    {
        self.io
    }
}

/// The count of a channel's calls in flight, kept below its concurrency
/// limit: a call is admitted only while the count is under the limit, and
/// leaves the count when it resolves.
#[derive(Debug)]
pub struct CallCounter {
    in_flight: usize,
    max_concurrency: usize,
}

impl CallCounter {
    #[verifier::type_invariant]
    spec fn within_limit(self) -> bool {
        self.in_flight <= self.max_concurrency
    }

    /// The number of calls in flight.
    pub closed spec fn count(&self) -> nat {
        self.in_flight as nat
    }

    /// The concurrency limit.
    pub closed spec fn limit(&self) -> nat {
        self.max_concurrency as nat
    }

    /// No call in flight, under the limit `max_concurrency`.
    pub fn new(max_concurrency: u32) -> (r: Self)
        ensures
            r.count() == 0,
            r.limit() == max_concurrency,
    {
        CallCounter { in_flight: 0, max_concurrency: max_concurrency as usize }
    }

    /// Admits a call when the count is under the limit, counting it.
    pub fn try_admit(&mut self) -> (r: bool)
        ensures
            r == (old(self).count() < old(self).limit()),
            final(self).limit() == old(self).limit(),
            final(self).count() == if r { old(self).count() + 1 } else { old(self).count() },
            final(self).count() <= final(self).limit(),
    {
        proof {
            use_type_invariant(&*self);
        }
        if self.in_flight < self.max_concurrency {
            self.in_flight = self.in_flight + 1;
            true
        } else {
            false
        }
    }

    /// A call in flight resolved.
    pub fn release(&mut self)
        requires
            old(self).count() > 0,
        ensures
            final(self).count() == old(self).count() - 1,
            final(self).limit() == old(self).limit(),
            final(self).count() <= final(self).limit(),
    {
        proof {
            use_type_invariant(&*self);
        }
        self.in_flight = self.in_flight - 1;
    }

    /// The number of calls in flight.
    pub fn in_flight(&self) -> (r: usize)
        ensures
            r == self.count(),
    {
        self.in_flight
    }

    /// The limit is reached.
    pub fn congested(&self) -> (r: bool)
        ensures
            r == (self.count() >= self.limit()),
            self.count() <= self.limit(),
    {
        proof {
            use_type_invariant(self);
        }
        self.in_flight >= self.max_concurrency
    }
}

} // verus!
