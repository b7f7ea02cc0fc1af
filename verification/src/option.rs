//! Support for SCPI style enums.

use vstd::prelude::*;

use crate::parser::util::{class_pred, mnemonic_matches, scan, span, CharClass};

verus! {

/// The short form of a mnemonic: its leading upper case letters and digits.
pub open spec fn short_form_of(m: Seq<u8>) -> Seq<u8> {
    m.take(span(m, class_pred(CharClass::ShortForm)) as int)
}

/// Common trait for getting an enum variant fom its `MNEMonic` and back.
pub trait ScpiEnum where Self: Sized {
    /// The full mnemonic of the variant.
    ///
    /// Every implementation gives it: left as it is, nothing is known of it,
    /// and the contract of [ScpiEnum::mnemonic] cannot be met.
    open spec fn mnemonic_text(&self) -> Seq<u8> {
        vstd::pervasive::arbitrary()
    }

    /// Get the enum variant from a mnemonic. Returns [None] if no variant matches the given mnemonic.
    fn from_mnemonic(s: &[u8]) -> (r: Option<Self>)
        ensures
            r matches Some(v) ==> mnemonic_matches(v.mnemonic_text(), s@),
    ;

    /// Return full `MNEMonic` of enum variant.
    fn mnemonic(&self) -> (m: &'static [u8])
        ensures
            m@ == self.mnemonic_text(),
    ;

    /// Get the mnemonic short form
    ///
    /// Example: 'MNEMonic' would return 'MNEM'
    fn short_form(&self) -> (m: &'static [u8])
        ensures
            m@ == short_form_of(self.mnemonic_text()),
    {
        let mnemonic = self.mnemonic();
        let len = scan(mnemonic, 0, CharClass::ShortForm);
        proof {
            assert(mnemonic@.skip(0) == mnemonic@);
        }
        &mnemonic[0..len]
    }
}

} // verus!
