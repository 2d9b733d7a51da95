use vstd::prelude::*;

verus! {

/// Compares two byte strings.
pub fn bytes_eq(a: &Vec<u8>, b: &Vec<u8>) -> (r: bool)
    ensures
        r == (a@ == b@),
{
    if a.len() != b.len() {
        return false;
    }
    let mut i: usize = 0;
    while i < a.len()
        invariant
            a@.len() == b@.len(),
            i <= a@.len(),
            forall|j: int| 0 <= j < i ==> a@[j] == b@[j],
        decreases a@.len() - i,
    {
        if a[i] != b[i] {
            return false;
        }
        i = i + 1;
    }
    assert(a@ =~= b@);
    true
}

/// An account: the raw bytes of a principal. Accounts are compared by
/// their bytes and serve as keys of the balance and allowance tables.
#[derive(Debug, Clone, PartialEq, Eq)]
pub struct Account {
    pub bytes: Vec<u8>,
}

impl View for Account {
    type V = Seq<u8>;

    open spec fn view(&self) -> Seq<u8> {
        self.bytes@
    }
}

impl Account {
    pub fn new(bytes: Vec<u8>) -> (r: Account)
        ensures
            r@ == bytes@,
    {
        Account { bytes }
    }

    /// The anonymous principal, written as the single byte 4.
    pub fn anonymous() -> (r: Account)
        ensures
            r@ == seq![4u8],
    {
        let mut bytes: Vec<u8> = Vec::new();
        bytes.push(4u8);
        assert(bytes@ =~= seq![4u8]);
        Account { bytes }
    }

    /// The management principal, `aaaaa-aa` in text: no bytes at all.
    pub fn management() -> (r: Account)
        ensures
            r@ == Seq::<u8>::empty(),
    {
        let bytes: Vec<u8> = Vec::new();
        assert(bytes@ =~= Seq::<u8>::empty());
        Account { bytes }
    }

    pub fn same(&self, other: &Account) -> (r: bool)
        ensures
            r == (self@ == other@),
    {
        bytes_eq(&self.bytes, &other.bytes)
    }

    /// A copy of this account with the same bytes.
    pub fn duplicate(&self) -> (r: Account)
        ensures
            r@ == self@,
    {
        let mut bytes: Vec<u8> = Vec::new();
        let mut i: usize = 0;
        while i < self.bytes.len()
            invariant
                i <= self.bytes@.len(),
                bytes@ =~= self.bytes@.subrange(0, i as int),
            decreases self.bytes@.len() - i,
        {
            bytes.push(self.bytes[i]);
            i = i + 1;
        }
        assert(bytes@ =~= self.bytes@);
        Account { bytes }
    }
}

} // verus!
