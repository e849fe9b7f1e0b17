//! Window messages that are registered by name.
//!
//! The platform gives every registered name one number for the whole session.
//! The number is asked for once and kept.

use vstd::prelude::*;
use vstd::string::StrSliceExecFns;

verus! {

/// The number that no registered message has.
pub const INVALID_ID: u32 = 0x0;

/// The first number that the platform gives to a registered message.
pub const FIRST_REGISTERED_MESSAGE: u32 = 0xC000;

/// The last number that the platform gives to a registered message.
pub const LAST_REGISTERED_MESSAGE: u32 = 0xFFFF;

/// Whether `id` is a number that the platform gives to registered messages.
/// The numbers of the platform's own messages and of the messages that
/// applications define freely are all smaller.
pub open spec fn is_registered(id: u32) -> bool {
    FIRST_REGISTERED_MESSAGE <= id <= LAST_REGISTERED_MESSAGE
}

/// The number of a message that the platform has registered.
#[derive(Copy, Clone, Debug, PartialEq, Eq, Hash, Structural)]
pub struct RegisteredMessage {
    id: u32,
}

impl View for RegisteredMessage {
    type V = u32;

    /// The number of the message.
    closed spec fn view(&self) -> u32 {
        self.id
    }
}

impl RegisteredMessage {
    #[verifier::type_invariant]
    spec fn inv(&self) -> bool {
        is_registered(self.id)
    }

    /// The registered message with the number `id`, if `id` is the number of
    /// one.
    pub fn new(id: u32) -> (message: Option<Self>)
        ensures
            message is Some <==> is_registered(id),
            message matches Some(m) ==> m@ == id,
    {
        if FIRST_REGISTERED_MESSAGE <= id && id <= LAST_REGISTERED_MESSAGE {
            Some(RegisteredMessage { id })
        } else {
            None
        }
    }

    /// The number of the message, which is one of a registered message.
    pub fn id(&self) -> (id: u32)
        ensures
            id == self@,
            is_registered(id),
    {
        proof {
            use_type_invariant(self);
        }
        self.id
    }
}

/// A message that is registered when its number is first needed.
#[derive(Copy, Clone, Debug)]
pub struct LazyMessageId {
    id: u32,
    name: &'static str,
}

/// What a [`LazyMessageId`] holds.
pub struct LazyMessageIdView {
    /// The number of the message, or [`INVALID_ID`] before registration.
    pub id: u32,
    /// The name under which the message is registered.
    pub name: Seq<char>,
}

impl View for LazyMessageId {
    type V = LazyMessageIdView;

    closed spec fn view(&self) -> LazyMessageIdView {
        LazyMessageIdView { id: self.id, name: self.name@ }
    }
}

/// Whether `name` ends with a NUL character, as the platform wants its
/// strings.
pub open spec fn is_nul_terminated(name: Seq<char>) -> bool {
    name.len() > 0 && name.last() == '\0'
}

impl LazyMessageId {
    #[verifier::type_invariant]
    spec fn inv(&self) -> bool {
        self.id == INVALID_ID || is_registered(self.id)
    }

    /// A message with the given name that has not been registered yet.
    pub fn new(name: &'static str) -> (this: Self)
        ensures
            this@.id == INVALID_ID,
            this@.name == name@,
    {
        LazyMessageId { id: INVALID_ID, name }
    }

    /// The message if it has been registered, else nothing: the caller then
    /// registers [`LazyMessageId::name`] and hands what the platform gave to
    /// [`LazyMessageId::set`].
    pub fn get(&self) -> (message: Option<RegisteredMessage>)
        ensures
            message is Some <==> self@.id != INVALID_ID,
            message matches Some(m) ==> m@ == self@.id,
    {
        proof {
            use_type_invariant(self);
        }
        if self.id != INVALID_ID {
            Some(RegisteredMessage { id: self.id })
        } else {
            None
        }
    }

    /// The name under which the message is registered.
    pub fn name(&self) -> (name: &'static str)
        ensures
            name@ == self@.name,
    {
        self.name
    }

    /// Whether the name ends with a NUL character. The platform reads the
    /// name up to a NUL, so a name without one must not be registered.
    pub fn name_is_nul_terminated(&self) -> (ok: bool)
        ensures
            ok == is_nul_terminated(self@.name),
    {
        let len: usize = self.name.unicode_len();
        len > 0 && self.name.get_char(len - 1) == '\0'
    }

    /// Keeps the message that the platform registered the name as. The
    /// platform gives the same number for the same name, so keeping it twice
    /// changes nothing.
    pub fn set(&mut self, message: RegisteredMessage) -> (kept: RegisteredMessage)
        requires
            is_nul_terminated(old(self)@.name),
        ensures
            kept == message,
            final(self)@ == (LazyMessageIdView { id: message@, ..old(self)@ }),
    {
        *self = LazyMessageId { id: message.id(), name: self.name };
        message
    }
}

/// The message by which a window asks the thread that owns it to destroy it.
pub fn destroy_msg_id() -> (message: LazyMessageId)
    ensures
        message@.id == INVALID_ID,
        message@.name == "WinitTray::DestroyMsg\0"@,
        is_nul_terminated(message@.name),
{
    proof {
        reveal_strlit("WinitTray::DestroyMsg\0");
    }
    LazyMessageId::new("WinitTray::DestroyMsg\0")
}

/// The message by which a popup is asked to close.
pub fn popup_close_msg_id() -> (message: LazyMessageId)
    ensures
        message@.id == INVALID_ID,
        message@.name == "WinitTray::PopupCloseMsg\0"@,
        is_nul_terminated(message@.name),
{
    proof {
        reveal_strlit("WinitTray::PopupCloseMsg\0");
    }
    LazyMessageId::new("WinitTray::PopupCloseMsg\0")
}

} // verus!
