//! A fixed-capacity message envelope: up to 62 payload bytes and their count.
use vstd::prelude::*;

verus! {

/// Bytes a [`ClMessage`] can hold.
pub const CLMSG_CAP: usize = 62;

/// A message envelope. Only the first `len` payload bytes are meaningful;
/// the others are kept zero.
#[derive(Copy, Clone)]
pub struct ClMessage {
    len: u16,
    da: [u8; CLMSG_CAP],
}

impl View for ClMessage {
    type V = Seq<u8>;

    /// The valid payload bytes.
    closed spec fn view(&self) -> Seq<u8> {
        self.da@.subrange(0, self.len as int)
    }
}

impl ClMessage {
    #[verifier::type_invariant]
    closed spec fn inv(self) -> bool {
        &&& self.len as usize <= CLMSG_CAP
        &&& forall|i: int| self.len <= i < CLMSG_CAP ==> self.da@[i] == 0
    }

    /// An empty envelope.
    pub fn empty() -> (r: ClMessage)
        ensures
            r@ == Seq::<u8>::empty(),
    {
        let r = ClMessage { len: 0, da: [0u8; CLMSG_CAP] };
        assert(r@ =~= Seq::<u8>::empty());
        r
    }

    /// Copies `src` into a new envelope, keeping at most the first 62 bytes.
    pub fn new(src: &[u8]) -> (r: ClMessage)
        ensures
            r@ == src@.take(if src@.len() > CLMSG_CAP { CLMSG_CAP as int } else { src@.len() as int }),
    {
        let n: usize = if src.len() > CLMSG_CAP {
            CLMSG_CAP
        } else {
            src.len()
        };
        let mut da = [0u8; CLMSG_CAP];
        let mut i: usize = 0;
        while i < n
            invariant
                n <= CLMSG_CAP,
                n <= src@.len(),
                i <= n,
                forall|j: int| 0 <= j < i ==> da@[j] == src@[j],
                forall|j: int| i <= j < CLMSG_CAP ==> da@[j] == 0,
            decreases n - i,
        {
            da[i] = src[i];
            i = i + 1;
        }
        let r = ClMessage { len: n as u16, da };
        assert(r@ =~= src@.take(n as int));
        r
    }

    /// Count of valid payload bytes.
    pub fn len(&self) -> (r: usize)
        ensures
            r == self@.len(),
            r <= CLMSG_CAP,
    {
        proof {
            use_type_invariant(self);
        }
        self.len as usize
    }

    /// The valid payload bytes.
    pub fn data(&self) -> (r: &[u8])
        ensures
            r@ == self@,
    {
        proof {
            use_type_invariant(self);
        }
        let all = self.da.as_slice();
        let (head, _) = all.split_at(self.len as usize);
        head
    }

    /// Total payload capacity, always 62.
    pub fn cap(&self) -> (r: usize)
        ensures
            r == CLMSG_CAP,
    {
        CLMSG_CAP
    }

    /// Room left for more payload bytes.
    pub fn free_space(&self) -> (r: usize)
        ensures
            r == CLMSG_CAP - self@.len(),
    {
        proof {
            use_type_invariant(self);
        }
        CLMSG_CAP - self.len as usize
    }

    /// Appends one byte.
    pub fn push(&mut self, b: u8)
        requires
            old(self)@.len() < CLMSG_CAP,
        ensures
            final(self)@ == old(self)@.push(b),
    {
        proof {
            use_type_invariant(&*self);
        }
        let n = self.len as usize;
        let mut da = self.da;
        da[n] = b;
        *self = ClMessage { len: (n + 1) as u16, da };
        assert(self@ =~= old(self)@.push(b));
    }

    /// Appends a run of bytes.
    pub fn extend(&mut self, rhs: &[u8])
        requires
            old(self)@.len() + rhs@.len() <= CLMSG_CAP,
        ensures
            final(self)@ == old(self)@ + rhs@,
    {
        proof {
            use_type_invariant(&*self);
        }
        let n = self.len as usize;
        let mut da = self.da;
        let mut i: usize = 0;
        while i < rhs.len()
            invariant
                n + rhs@.len() <= CLMSG_CAP,
                i <= rhs@.len(),
                forall|j: int| 0 <= j < n ==> da@[j] == self.da@[j],
                forall|j: int| 0 <= j < i ==> da@[n + j] == rhs@[j],
                forall|j: int| n + i <= j < CLMSG_CAP ==> da@[j] == 0,
            decreases rhs@.len() - i,
        {
            da[n + i] = rhs[i];
            i = i + 1;
        }
        let ghost before = self@;
        *self = ClMessage { len: (n + rhs.len()) as u16, da };
        assert(self@ =~= before + rhs@);
    }
}

impl PartialEq for ClMessage {
    /// Two envelopes are equal when their valid payloads are.
    fn eq(&self, other: &ClMessage) -> (r: bool) {
        let a = self.data();
        let b = other.data();
        if a.len() != b.len() {
            return false;
        }
        let mut i: usize = 0;
        while i < a.len()
            invariant
                a@ == self@,
                b@ == other@,
                a@.len() == b@.len(),
                forall|j: int| 0 <= j < i ==> a@[j] == b@[j],
            decreases a@.len() - i,
        {
            if a[i] != b[i] {
                return false;
            }
            i = i + 1;
        }
        assert(a@ =~= b@);
        true
    }
}

impl vstd::std_specs::cmp::PartialEqSpecImpl for ClMessage {
    open spec fn obeys_eq_spec() -> bool {
        true
    }

    open spec fn eq_spec(&self, other: &ClMessage) -> bool {
        self@ == other@
    }
}

impl Eq for ClMessage {

}

impl<'a> vstd::std_specs::convert::FromSpecImpl<&'a str> for ClMessage {
    open spec fn obeys_from_spec() -> bool {
        false
    }

    open spec fn from_spec(src: &'a str) -> ClMessage {
        arbitrary()
    }
}

impl<'a> From<&'a str> for ClMessage {
    /// The UTF-8 bytes of `src`, cut at 62 bytes; see [`ClMessage::new`].
    fn from(src: &'a str) -> ClMessage {
        ClMessage::new(src.as_bytes())
    }
}

impl vstd::std_specs::ops::AddSpecImpl<u8> for ClMessage {
    open spec fn obeys_add_spec() -> bool {
        false
    }

    open spec fn add_req(self, rhs: u8) -> bool {
        self@.len() < CLMSG_CAP
    }

    open spec fn add_spec(self, rhs: u8) -> ClMessage {
        arbitrary()
    }
}

impl std::ops::Add<u8> for ClMessage {
    type Output = ClMessage;

    /// The envelope with one more byte; see [`ClMessage::push`].
    fn add(self, rhs: u8) -> ClMessage {
        let mut r = self;
        r.push(rhs);
        r
    }
}

impl std::ops::AddAssign<u8> for ClMessage {
    /// Appends one byte when there is room; a full envelope is left as it is.
    fn add_assign(&mut self, rhs: u8) {
        if self.len() < CLMSG_CAP {
            self.push(rhs);
        }
    }
}

impl<'a> vstd::std_specs::ops::AddSpecImpl<&'a [u8]> for ClMessage {
    open spec fn obeys_add_spec() -> bool {
        false
    }

    open spec fn add_req(self, rhs: &'a [u8]) -> bool {
        self@.len() + rhs@.len() <= CLMSG_CAP
    }

    open spec fn add_spec(self, rhs: &'a [u8]) -> ClMessage {
        arbitrary()
    }
}

impl<'a> std::ops::Add<&'a [u8]> for ClMessage {
    type Output = ClMessage;

    /// The envelope with `rhs` appended; see [`ClMessage::extend`].
    fn add(self, rhs: &'a [u8]) -> ClMessage {
        let mut r = self;
        r.extend(rhs);
        r
    }
}

impl<'a> std::ops::AddAssign<&'a [u8]> for ClMessage {
    /// Appends `rhs` when it fits; otherwise the envelope is left as it is.
    fn add_assign(&mut self, rhs: &'a [u8]) {
        if rhs.len() <= self.free_space() {
            self.extend(rhs);
        }
    }
}

} // verus!
