//! Registration of a step circuit's public inputs in layout order, with the
//! verifier-key commitment registered at most once.
use crate::error::IvcError;
use crate::layout::PublicInputLayout;
use vstd::prelude::*;

verus! {

/// The public inputs registered so far while a circuit is built.
#[derive(Clone, Copy, Debug, PartialEq, Eq, Structural)]
pub struct LayoutBuilder {
    pub num_state: usize,
    pub condition: bool,
    pub vk_len: Option<usize>,
}

impl LayoutBuilder {
    /// A key is registered only after the flag, and the slots fit in `usize`.
    pub open spec fn wf(self) -> bool {
        match self.vk_len {
            Some(k) => self.condition && self.num_state + 1 + k <= usize::MAX,
            None => true,
        }
    }

    /// Nothing registered.
    pub fn new() -> (r: LayoutBuilder)
        ensures
            r.num_state == 0,
            !r.condition,
            r.vk_len is None,
            r.wf(),
    {
        LayoutBuilder { num_state: 0, condition: false, vk_len: None }
    }

    /// Registers the next state field and returns its slot. State fields come
    /// before the flag and the key: after them it is a `ShapeMismatch`.
    pub fn register_state(&mut self) -> (r: Result<usize, IvcError>)
        ensures
            r.is_ok() <==> (!old(self).condition && old(self).vk_len is None && old(self).num_state
                < usize::MAX),
            r matches Ok(slot) ==> slot == old(self).num_state && *final(self) == (LayoutBuilder {
                num_state: (old(self).num_state + 1) as usize,
                ..*old(self)
            }),
            r matches Err(e) ==> e == IvcError::ShapeMismatch && *final(self) == *old(self),
    {
        if self.condition || self.vk_len.is_some() || self.num_state == usize::MAX {
            return Err(IvcError::ShapeMismatch);
        }
        let slot = self.num_state;
        self.num_state = slot + 1;
        Ok(slot)
    }

    /// Registers the condition flag and returns its slot; a second flag, or a
    /// flag after the key, is a `ShapeMismatch`.
    pub fn register_condition(&mut self) -> (r: Result<usize, IvcError>)
        ensures
            r.is_ok() <==> (!old(self).condition && old(self).vk_len is None),
            r matches Ok(slot) ==> slot == old(self).num_state && *final(self) == (LayoutBuilder {
                condition: true,
                ..*old(self)
            }),
            r matches Err(e) ==> e == IvcError::ShapeMismatch && *final(self) == *old(self),
    {
        if self.condition || self.vk_len.is_some() {
            return Err(IvcError::ShapeMismatch);
        }
        self.condition = true;
        Ok(self.num_state)
    }

    /// Registers the verifier-key commitment, `vk_len` slots after the flag,
    /// and returns its first slot. A second registration is refused with
    /// `VerifierKeyAlreadyRegistered`; one before the flag, or one whose slots
    /// would not fit in `usize`, with `ShapeMismatch`.
    pub fn register_verifier_key(&mut self, vk_len: usize) -> (r: Result<usize, IvcError>)
        requires
            old(self).wf(),
        ensures
            old(self).vk_len is Some ==> r == Err::<usize, IvcError>(
                IvcError::VerifierKeyAlreadyRegistered,
            ),
            r.is_ok() <==> (old(self).vk_len is None && old(self).condition && old(self).num_state + 1
                + vk_len <= usize::MAX),
            r matches Ok(start) ==> start == old(self).num_state + 1 && *final(self) == (LayoutBuilder {
                vk_len: Some(vk_len),
                ..*old(self)
            }),
            r matches Err(e) ==> *final(self) == *old(self) && (e == IvcError::ShapeMismatch || e
                == IvcError::VerifierKeyAlreadyRegistered),
            final(self).wf(),
    {
        if self.vk_len.is_some() {
            return Err(IvcError::VerifierKeyAlreadyRegistered);
        }
        if !self.condition || self.num_state == usize::MAX || vk_len > usize::MAX - 1
            - self.num_state {
            return Err(IvcError::ShapeMismatch);
        }
        self.vk_len = Some(vk_len);
        Ok(self.num_state + 1)
    }

    /// The finished layout; a `ShapeMismatch` until the flag and the key are
    /// registered.
    pub fn finish(&self) -> (r: Result<PublicInputLayout, IvcError>)
        requires
            self.wf(),
        ensures
            r.is_ok() <==> self.vk_len is Some,
            r matches Ok(l) ==> l.wf() && l.num_state == self.num_state && Some(l.vk_len)
                == self.vk_len,
            r matches Err(e) ==> e == IvcError::ShapeMismatch,
    {
        match self.vk_len {
            Some(k) => Ok(PublicInputLayout { num_state: self.num_state, vk_len: k }),
            None => Err(IvcError::ShapeMismatch),
        }
    }
}

} // verus!
