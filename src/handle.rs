//! Native objects handed to the host as opaque tokens.
//!
//! Boxing moves a value into the registry and gives back a token; casting
//! looks a token up for the length of one call; destroying moves the value
//! out again. Token `0` is the null token. Every token carries the type tag
//! of the registry that issued it, and a slot is never reused, so a token of
//! another object type, one that was destroyed, or one never given out fails
//! to cast instead of reaching another object.
use vstd::prelude::*;
use crate::classify::classify;
use crate::error_code::SignalErrorCode;
use crate::errors::SignalFfiError;

verus! {

/// The token that the host holds for a native object.
pub type ObjectHandle = i64;

/// The spacing of token numbers between object types: a token is
/// `kind * TOKEN_STRIDE + slot + 1`.
pub const TOKEN_STRIDE: u64 = 4294967296;

/// The largest object-type tag that a registry can be made with.
pub const MAX_KIND: u32 = 2147483646;

/// The object type that a token was issued for.
pub open spec fn token_kind(handle: int) -> int {
    handle / (TOKEN_STRIDE as int)
}

/// The slot number, counted from 1, that a token names.
pub open spec fn token_slot(handle: int) -> int {
    handle % (TOKEN_STRIDE as int)
}

/// The token issued for slot `slot` of a registry of object type `kind`.
pub open spec fn issued_token(kind: int, slot: int) -> int {
    kind * (TOKEN_STRIDE as int) + slot + 1
}

/// The value that a token refers to in a registry of object type `kind` whose
/// slots are `slots`, if the token was issued by such a registry and its
/// object is live.
pub open spec fn handle_target<T>(kind: int, slots: Seq<Option<T>>, handle: int) -> Option<T> {
    if handle > 0 && token_kind(handle) == kind && 1 <= token_slot(handle) <= slots.len() {
        slots[token_slot(handle) - 1]
    } else {
        None
    }
}

/// The slot and type of a token issued for slot `slot` of a registry of type `kind`.
proof fn lemma_issued_token_parts(kind: int, slot: int)
    requires
        0 <= kind,
        0 <= slot < TOKEN_STRIDE - 1,
    ensures
        issued_token(kind, slot) > 0,
        token_kind(issued_token(kind, slot)) == kind,
        token_slot(issued_token(kind, slot)) == slot + 1,
{
    vstd::arithmetic::div_mod::lemma_fundamental_div_mod_converse(
        issued_token(kind, slot),
        TOKEN_STRIDE as int,
        kind,
        slot + 1,
    );
    assert(kind * (TOKEN_STRIDE as int) >= 0) by (nonlinear_arith)
        requires
            kind >= 0,
    ;
}

/// Owner of the native objects of one type that the host holds tokens for.
/// Every token it issues carries its type tag, so a token of another type fails
/// to cast here.
pub struct HandleRegistry<T> {
    kind: u32,
    slots: Vec<Option<T>>,
}

impl<T> View for HandleRegistry<T> {
    type V = Seq<Option<T>>;

    /// Slot `i` holds the object of the token for slot `i`, or `None` once it
    /// is destroyed.
    closed spec fn view(&self) -> Seq<Option<T>> {
        self.slots@
    }
}

impl<T> HandleRegistry<T> {
    /// The object-type tag that this registry's tokens carry.
    pub closed spec fn tag(&self) -> int {
        self.kind as int
    }

    /// The well-formedness of a registry: its tag fits in a token, and so does
    /// every slot it has numbered.
    pub closed spec fn wf(&self) -> bool {
        self.kind <= MAX_KIND && self.slots@.len() <= Self::capacity()
    }

    /// The largest number of tokens that a registry gives out.
    pub open spec fn capacity() -> int {
        TOKEN_STRIDE - 1
    }

    /// An empty registry for objects of type tag `kind`.
    pub fn new(kind: u32) -> (r: HandleRegistry<T>)
        requires
            kind <= MAX_KIND,
        ensures
            r@ == Seq::<Option<T>>::empty(),
            r.tag() == kind,
            r.wf(),
    {
        HandleRegistry { kind, slots: Vec::new() }
    }

    /// The object-type tag of this registry.
    pub fn kind(&self) -> (r: u32)
        ensures
            r == self.tag(),
    {
        self.kind
    }

    /// The number of tokens given out so far, live or destroyed.
    pub fn issued(&self) -> (r: usize)
        ensures
            r == self@.len(),
    {
        self.slots.len()
    }

    /// Moves `value` into the registry and returns a fresh token for it.
    pub fn box_object(&mut self, value: T) -> (r: ObjectHandle)
        requires
            old(self).wf(),
            old(self)@.len() < Self::capacity(),
        ensures
            final(self).wf(),
            final(self).tag() == old(self).tag(),
            final(self)@ == old(self)@.push(Some(value)),
            r == issued_token(old(self).tag(), old(self)@.len() as int),
            handle_target(final(self).tag(), final(self)@, r as int) == Some(value),
    {
        proof {
            lemma_issued_token_parts(self.kind as int, self.slots@.len() as int);
            assert(self.kind as int * (TOKEN_STRIDE as int) <= MAX_KIND as int * (TOKEN_STRIDE as int))
                by (nonlinear_arith)
                requires
                    self.kind <= MAX_KIND,
            ;
        }
        let handle = self.kind as i64 * (TOKEN_STRIDE as i64) + self.slots.len() as i64 + 1;
        self.slots.push(Some(value));
        handle
    }

    /// The slot index that `handle` names here, or the failure for a token that
    /// is null or was not issued by a registry of this type.
    fn slot_of(&self, handle: ObjectHandle) -> (r: Result<usize, SignalFfiError>)
        ensures
            match r {
                Ok(i) => handle > 0 && token_kind(handle as int) == self.tag() && i + 1 == token_slot(handle as int) && i < self@.len(),
                Err(e) => !(handle > 0 && token_kind(handle as int) == self.tag() && 1 <= token_slot(handle as int) <= self@.len()) && if handle == 0 {
                    e is NullPointer
                } else {
                    e is InvalidHandle
                },
            },
    {
        if handle == 0 {
            return Err(SignalFfiError::NullPointer);
        }
        if handle < 0 {
            return Err(SignalFfiError::InvalidHandle);
        }
        let h = handle as u64;
        let kind = h / TOKEN_STRIDE;
        let slot = h % TOKEN_STRIDE;
        if kind != self.kind as u64 || slot == 0 || slot > self.slots.len() as u64 {
            return Err(SignalFfiError::InvalidHandle);
        }
        Ok((slot - 1) as usize)
    }

    /// A reference to the object of `handle`, valid for the current call. The
    /// null token, one of another object type, and one that was destroyed or
    /// never given out, fail.
    pub fn cast(&self, handle: ObjectHandle) -> (r: Result<&T, SignalFfiError>)
        ensures
            match handle_target(self.tag(), self@, handle as int) {
                Some(v) => r matches Ok(x) && *x == v,
                None => if handle == 0 {
                    r matches Err(SignalFfiError::NullPointer)
                } else {
                    r matches Err(SignalFfiError::InvalidHandle)
                },
            },
            handle != 0 && token_kind(handle as int) != self.tag() ==> r matches Err(
                SignalFfiError::InvalidHandle,
            ),
    {
        let i = match self.slot_of(handle) {
            Ok(i) => i,
            Err(e) => return Err(e),
        };
        match &self.slots[i] {
            Some(v) => Ok(v),
            None => Err(SignalFfiError::InvalidHandle),
        }
    }

    /// Destroys the object of `handle` and hands it back. A second destruction,
    /// like a cast afterwards, fails, and so does a token of another object type.
    pub fn destroy(&mut self, handle: ObjectHandle) -> (r: Result<T, SignalFfiError>)
        requires
            old(self).wf(),
        ensures
            final(self).wf(),
            final(self).tag() == old(self).tag(),
            match handle_target(old(self).tag(), old(self)@, handle as int) {
                Some(v) => r == Ok::<T, SignalFfiError>(v) && final(self)@ == old(self)@.update(
                    token_slot(handle as int) - 1,
                    None,
                ),
                None => final(self)@ == old(self)@ && if handle == 0 {
                    r matches Err(SignalFfiError::NullPointer)
                } else {
                    r matches Err(SignalFfiError::InvalidHandle)
                },
            },
            handle != 0 && token_kind(handle as int) != old(self).tag() ==> r matches Err(
                SignalFfiError::InvalidHandle,
            ),
    {
        let i = match self.slot_of(handle) {
            Ok(i) => i,
            Err(e) => return Err(e),
        };
        let mut taken: Option<T> = None;
        std::mem::swap(&mut taken, &mut self.slots[i]);
        match taken {
            Some(v) => Ok(v),
            None => Err(SignalFfiError::InvalidHandle),
        }
    }
}

/// Boxing a value and casting its fresh token gives that value back, and boxing
/// leaves what every other token refers to as it was.
pub proof fn lemma_box_then_cast<T>(kind: int, slots: Seq<Option<T>>, value: T, other: int)
    requires
        0 <= kind <= MAX_KIND,
        slots.len() < TOKEN_STRIDE - 1,
    ensures
        handle_target(kind, slots.push(Some(value)), issued_token(kind, slots.len() as int))
            == Some(value),
        other != issued_token(kind, slots.len() as int) ==> handle_target(
            kind,
            slots.push(Some(value)),
            other,
        ) == handle_target(kind, slots, other),
{
    lemma_issued_token_parts(kind, slots.len() as int);
    if other != issued_token(kind, slots.len() as int) && other > 0 && token_kind(other) == kind {
        vstd::arithmetic::div_mod::lemma_fundamental_div_mod(other, TOKEN_STRIDE as int);
        assert(token_slot(other) != slots.len() + 1);
    }
}

/// A token that one registry issued never casts on a registry of another
/// object type, whatever that registry holds.
pub proof fn lemma_token_of_other_kind_fails<T>(kind: int, slot: int, other_kind: int, slots: Seq<Option<T>>)
    requires
        0 <= kind,
        0 <= slot < TOKEN_STRIDE - 1,
        other_kind != kind,
    ensures
        handle_target(other_kind, slots, issued_token(kind, slot)) is None,
        issued_token(kind, slot) != 0,
{
    lemma_issued_token_parts(kind, slot);
}

/// A destroyed token, like the null token, refers to nothing any more, and the
/// failure that casting it gives reaches the host as the null-parameter code.
pub proof fn lemma_destroyed_or_null_token_fails<T>(kind: int, slots: Seq<Option<T>>, slot: int)
    requires
        0 <= kind,
        0 <= slot < slots.len(),
        slots.len() < TOKEN_STRIDE - 1,
    ensures
        handle_target(kind, slots.update(slot, None), issued_token(kind, slot)) is None,
        handle_target(kind, slots, 0) is None,
        classify(SignalFfiError::InvalidHandle) == SignalErrorCode::NullParameter,
        classify(SignalFfiError::NullPointer) == SignalErrorCode::NullParameter,
        SignalErrorCode::NullParameter.value() == 4,
{
    lemma_issued_token_parts(kind, slot);
}

} // verus!
