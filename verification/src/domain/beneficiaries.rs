//! The beneficiaries of a split payment.

use vstd::prelude::*;

use crate::decimal::{representable, share_amount, share_of};

verus! {

/// A decimal fraction as contracts see it: `mantissa / 10^scale`.
pub struct ShareView {
    pub mantissa: i128,
    pub scale: u32,
}

/// The fraction of a payment that goes to one beneficiary, as an exact decimal
/// number `mantissa / 10^scale`.
#[derive(Debug, Clone, Copy)]
pub struct Share {
    mantissa: i128,
    scale: u32,
}

impl View for Share {
    type V = ShareView;

    closed spec fn view(&self) -> ShareView {
        ShareView { mantissa: self.mantissa, scale: self.scale }
    }
}

impl Share {
    #[verifier::type_invariant]
    spec fn well_formed(self) -> bool {
        representable(self.mantissa, self.scale)
    }

    /// The fraction `mantissa / 10^scale`, if it has at most 28 decimal places
    /// and its mantissa fits in 96 bits.
    pub fn new(mantissa: i128, scale: u32) -> (r: Option<Share>)
        ensures
            r is Some <==> representable(mantissa, scale),
            r matches Some(s) ==> s@ == (ShareView { mantissa, scale }),
    {
        if scale <= crate::decimal::MAX_SCALE && -crate::decimal::MAX_MANTISSA <= mantissa
            && mantissa <= crate::decimal::MAX_MANTISSA {
            Some(Share { mantissa, scale })
        } else {
            None
        }
    }

    /// The mantissa of the fraction.
    pub fn mantissa(&self) -> (m: i128)
        ensures
            m == self@.mantissa,
    {
        self.mantissa
    }

    /// The number of decimal places of the fraction.
    pub fn scale(&self) -> (s: u32)
        ensures
            s == self@.scale,
    {
        self.scale
    }

    /// This share of `amount`, rounded to a whole amount of money.
    pub fn of(&self, amount: i64) -> (r: Option<i64>)
        ensures
            r == share_of(amount, self@.mantissa, self@.scale),
    {
        proof {
            use_type_invariant(self);
        }
        share_amount(amount, self.mantissa, self.scale)
    }
}

/// One beneficiary as contracts see it.
pub struct BeneficiaryView {
    pub token: Seq<char>,
    pub part: ShareView,
}

/// One beneficiary of a split payment: the card token of the account that is
/// paid and the share of the payment that it gets.
#[derive(Debug)]
pub struct Beneficiary {
    token: String,
    part: Share,
}

impl View for Beneficiary {
    type V = BeneficiaryView;

    closed spec fn view(&self) -> BeneficiaryView {
        BeneficiaryView { token: self.token@, part: self.part@ }
    }
}

impl Beneficiary {
    pub fn new(token: String, part: Share) -> (b: Beneficiary)
        ensures
            b@ == (BeneficiaryView { token: token@, part: part@ }),
    {
        Beneficiary { token, part }
    }

    /// The card token of the beneficiary's account.
    pub fn token(&self) -> (t: &str)
        ensures
            t@ == self@.token,
    {
        self.token.as_str()
    }

    /// The beneficiary's share.
    pub fn part(&self) -> (p: Share)
        ensures
            p@ == self@.part,
    {
        self.part
    }
}

impl Clone for Beneficiary {
    fn clone(&self) -> (b: Self)
        ensures
            b == *self,
    {
        Beneficiary { token: self.token.clone(), part: self.part }
    }
}

/// The beneficiaries of a payment as contracts see them.
pub struct BeneficiariesView {
    pub parts: Seq<BeneficiaryView>,
    pub valid: bool,
}

/// The beneficiaries of a split payment, in the order in which they are paid,
/// with the verdict of the validation that the list went through when the
/// request that carried it was accepted.
#[derive(Debug)]
pub struct Beneficiaries {
    parts: Vec<Beneficiary>,
    valid: bool,
}

impl View for Beneficiaries {
    type V = BeneficiariesView;

    closed spec fn view(&self) -> BeneficiariesView {
        BeneficiariesView { parts: Seq::new(self.parts@.len(), |i: int| self.parts@[i]@), valid: self.valid }
    }
}

impl Beneficiaries {
    /// A list of beneficiaries with the verdict of its validation.
    pub fn new(parts: Vec<Beneficiary>, valid: bool) -> (b: Beneficiaries)
        ensures
            b@.valid == valid,
            b@.parts.len() == parts@.len(),
            forall|i: int| 0 <= i < parts@.len() ==> b@.parts[i] == parts@[i]@,
    {
        Beneficiaries { parts, valid }
    }

    /// No beneficiaries: the whole payment goes to the store.
    pub fn empty() -> (b: Beneficiaries)
        ensures
            b@.parts.len() == 0,
            b@.valid,
    {
        Beneficiaries { parts: Vec::new(), valid: true }
    }

    /// Did the list pass validation?
    pub fn validate(&self) -> (ok: bool)
        ensures
            ok == self@.valid,
    {
        self.valid
    }

    /// The number of beneficiaries.
    pub fn count(&self) -> (n: usize)
        ensures
            n == self@.parts.len(),
    {
        self.parts.len()
    }

    /// Is the list empty?
    pub fn is_empty(&self) -> (b: bool)
        ensures
            b == (self@.parts.len() == 0),
    {
        self.parts.len() == 0
    }

    /// The beneficiary at position `i`.
    pub fn get(&self, i: usize) -> (b: &Beneficiary)
        requires
            i < self@.parts.len(),
        ensures
            b@ == self@.parts[i as int],
    {
        &self.parts[i]
    }
}

impl Clone for Beneficiaries {
    fn clone(&self) -> (b: Self)
        ensures
            b@ == self@,
    {
        let mut parts: Vec<Beneficiary> = Vec::new();
        let mut i: usize = 0;
        while i < self.parts.len()
            invariant
                i <= self.parts@.len(),
                parts@.len() == i,
                forall|j: int| 0 <= j < i ==> parts@[j] == self.parts@[j],
            decreases self.parts@.len() - i,
        {
            parts.push(self.parts[i].clone());
            i += 1;
        }
        assert(parts@ =~= self.parts@);
        Beneficiaries { parts, valid: self.valid }
    }
}

} // verus!
