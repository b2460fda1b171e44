//! Validated identifiers and the integers that a JSON number can hold.
//!
//! An identifier is a string that begins with the sigil of its kind and is at
//! most 255 bytes long. A value of one of these types always holds such a
//! string.

use vstd::prelude::*;

verus! {

/// The greatest length of an identifier, in bytes.
pub const MAX_ID_BYTES: usize = 255;

/// The greatest integer that a [`UInt`] holds: 2^53 - 1.
pub const MAX_SAFE_UINT: u64 = 0x001F_FFFF_FFFF_FFFF;

/// Why a string is not an identifier.
#[derive(Clone, Copy, Debug, PartialEq, Eq, Structural)]
pub enum IdParseError {
    /// The string is longer than 255 bytes.
    MaximumLengthExceeded,
    /// The string does not begin with the sigil of its kind.
    MissingLeadingSigil,
}

/// Whether `s` is an identifier with the given sigil.
pub open spec fn is_identifier(s: Seq<char>, sigil: char) -> bool {
    vstd::utf8::encode_utf8(s).len() <= MAX_ID_BYTES && s.len() > 0 && s[0] == sigil
}

/// What comes of checking `s` against a sigil: too long a string is reported
/// before a missing sigil.
pub open spec fn identifier_check(s: Seq<char>, sigil: char) -> Result<(), IdParseError> {
    if vstd::utf8::encode_utf8(s).len() > MAX_ID_BYTES {
        Err(IdParseError::MaximumLengthExceeded)
    } else if s.len() == 0 || s[0] != sigil {
        Err(IdParseError::MissingLeadingSigil)
    } else {
        Ok(())
    }
}

/// Checks that `s` is an identifier with the given sigil.
pub fn check_identifier(s: &str, sigil: char) -> (r: Result<(), IdParseError>)
    ensures
        r == identifier_check(s@, sigil),
        r is Ok <==> is_identifier(s@, sigil),
{
    if s.as_bytes().len() > MAX_ID_BYTES {
        Err(IdParseError::MaximumLengthExceeded)
    } else if s.unicode_len() == 0 || s.get_char(0) != sigil {
        Err(IdParseError::MissingLeadingSigil)
    } else {
        Ok(())
    }
}

/// The identifier of a room: begins with `!`.
#[derive(Debug, PartialEq, Eq)]
pub struct RoomId {
    id: String,
}

/// The identifier of an event: begins with `$`.
#[derive(Debug, PartialEq, Eq)]
pub struct EventId {
    id: String,
}

/// The identifier of a user: begins with `@`.
#[derive(Debug, PartialEq, Eq)]
pub struct UserId {
    id: String,
}

/// An integer that a JSON number holds exactly: at most 2^53 - 1.
#[derive(Clone, Copy, Debug, PartialEq, Eq)]
pub struct UInt {
    value: u64,
}

impl Clone for RoomId {
    fn clone(&self) -> (r: Self)
        ensures
            r@ == self@,
    {
        proof {
            use_type_invariant(self);
        }
        RoomId { id: self.id.clone() }
    }
}

impl View for RoomId {
    type V = Seq<char>;

    closed spec fn view(&self) -> Seq<char> {
        self.id@
    }
}

impl Clone for EventId {
    fn clone(&self) -> (r: Self)
        ensures
            r@ == self@,
    {
        proof {
            use_type_invariant(self);
        }
        EventId { id: self.id.clone() }
    }
}

impl View for EventId {
    type V = Seq<char>;

    closed spec fn view(&self) -> Seq<char> {
        self.id@
    }
}

impl Clone for UserId {
    fn clone(&self) -> (r: Self)
        ensures
            r@ == self@,
    {
        proof {
            use_type_invariant(self);
        }
        UserId { id: self.id.clone() }
    }
}

impl View for UserId {
    type V = Seq<char>;

    closed spec fn view(&self) -> Seq<char> {
        self.id@
    }
}

impl View for UInt {
    type V = u64;

    closed spec fn view(&self) -> u64 {
        self.value
    }
}

impl RoomId {
    #[verifier::type_invariant]
    spec fn inv(self) -> bool {
        is_identifier(self.id@, '!')
    }

    /// Whether the value holds a room identifier.
    pub open spec fn wf(&self) -> bool {
        is_identifier(self@, '!')
    }

    /// Reads a room identifier.
    pub fn parse(s: &str) -> (r: Result<RoomId, IdParseError>)
        ensures
            match identifier_check(s@, '!') {
                Ok(_) => r is Ok && r->Ok_0@ == s@ && r->Ok_0.wf(),
                Err(e) => r == Err::<RoomId, IdParseError>(e),
            },
    {
        match check_identifier(s, '!') {
            Ok(_) => Ok(RoomId { id: String::from_str(s) }),
            Err(e) => Err(e),
        }
    }

    /// The identifier as a string.
    pub fn as_str(&self) -> (r: &str)
        ensures
            r@ == self@,
            self.wf(),
    {
        proof {
            use_type_invariant(self);
        }
        self.id.as_str()
    }
}

impl EventId {
    #[verifier::type_invariant]
    spec fn inv(self) -> bool {
        is_identifier(self.id@, '$')
    }

    /// Whether the value holds an event identifier.
    pub open spec fn wf(&self) -> bool {
        is_identifier(self@, '$')
    }

    /// Reads an event identifier.
    pub fn parse(s: &str) -> (r: Result<EventId, IdParseError>)
        ensures
            match identifier_check(s@, '$') {
                Ok(_) => r is Ok && r->Ok_0@ == s@ && r->Ok_0.wf(),
                Err(e) => r == Err::<EventId, IdParseError>(e),
            },
    {
        match check_identifier(s, '$') {
            Ok(_) => Ok(EventId { id: String::from_str(s) }),
            Err(e) => Err(e),
        }
    }

    /// The identifier as a string.
    pub fn as_str(&self) -> (r: &str)
        ensures
            r@ == self@,
            self.wf(),
    {
        proof {
            use_type_invariant(self);
        }
        self.id.as_str()
    }
}

impl UserId {
    #[verifier::type_invariant]
    spec fn inv(self) -> bool {
        is_identifier(self.id@, '@')
    }

    /// Whether the value holds a user identifier.
    pub open spec fn wf(&self) -> bool {
        is_identifier(self@, '@')
    }

    /// Reads a user identifier.
    pub fn parse(s: &str) -> (r: Result<UserId, IdParseError>)
        ensures
            match identifier_check(s@, '@') {
                Ok(_) => r is Ok && r->Ok_0@ == s@ && r->Ok_0.wf(),
                Err(e) => r == Err::<UserId, IdParseError>(e),
            },
    {
        match check_identifier(s, '@') {
            Ok(_) => Ok(UserId { id: String::from_str(s) }),
            Err(e) => Err(e),
        }
    }

    /// The identifier as a string.
    pub fn as_str(&self) -> (r: &str)
        ensures
            r@ == self@,
            self.wf(),
    {
        proof {
            use_type_invariant(self);
        }
        self.id.as_str()
    }
}

impl UInt {
    #[verifier::type_invariant]
    spec fn inv(self) -> bool {
        self.value <= MAX_SAFE_UINT
    }

    /// Whether the value is in range.
    pub open spec fn wf(&self) -> bool {
        self@ <= MAX_SAFE_UINT
    }

    /// The integer `value`, if it is at most 2^53 - 1.
    pub fn new(value: u64) -> (r: Option<UInt>)
        ensures
            match r {
                Some(u) => u@ == value && value <= MAX_SAFE_UINT,
                None => value > MAX_SAFE_UINT,
            },
    {
        if value <= MAX_SAFE_UINT {
            Some(UInt { value })
        } else {
            None
        }
    }

    /// The integer as a `u64`.
    pub fn get(&self) -> (r: u64)
        ensures
            r == self@,
            self.wf(),
    {
        proof {
            use_type_invariant(self);
        }
        self.value
    }
}

} // verus!
