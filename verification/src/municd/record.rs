//! One municipality, and the key under which its code is filed.

use crate::text::{
    decimal, decimal_digits, decimal_value, lemma_decimal_digits_denote, lemma_leading_zeros,
    pad_left, padded, strip_char, without_char,
};
use vstd::prelude::*;

verus! {

/// The width of a code when it serves as a key.
pub const KEY_WIDTH: usize = 6;

/// The blank that the source puts inside some municipality names.
pub const IDEOGRAPHIC_SPACE: char = '\u{3000}';

/// One municipality.
#[derive(Debug, PartialEq, Eq)]
pub struct MuniCdRecord {
    code: usize,
    pref: String,
    town: String,
}

/// What a record holds, as mathematical values.
pub ghost struct MuniCdRecordView {
    pub code: usize,
    pub pref: Seq<char>,
    pub town: Seq<char>,
}

impl MuniCdRecordView {
    /// The name to show: the prefecture, then the municipality without the
    /// ideographic spaces in it.
    pub open spec fn display(self) -> Seq<char> {
        self.pref + without_char(self.town, IDEOGRAPHIC_SPACE)
    }
}

impl View for MuniCdRecord {
    type V = MuniCdRecordView;

    closed spec fn view(&self) -> MuniCdRecordView {
        MuniCdRecordView { code: self.code, pref: self.pref@, town: self.town@ }
    }
}

impl Clone for MuniCdRecord {
    fn clone(&self) -> (r: Self)
        ensures
            r@ == self@,
    {
        MuniCdRecord { code: self.code, pref: self.pref.clone(), town: self.town.clone() }
    }
}

impl MuniCdRecord {
    /// A record of the given code, prefecture and municipality.
    pub fn new(code: usize, pref: String, town: String) -> (r: Self)
        ensures
            r@ == (MuniCdRecordView { code, pref: pref@, town: town@ }),
    {
        Self { code, pref, town }
    }

    /// The municipality code.
    pub fn code(&self) -> (r: usize)
        ensures
            r == self@.code,
    {
        self.code
    }

    /// The name of the prefecture.
    pub fn pref_name(&self) -> (r: String)
        ensures
            r@ == self@.pref,
    {
        self.pref.clone()
    }

    /// The name of the municipality, as the source writes it.
    pub fn town_name(&self) -> (r: String)
        ensures
            r@ == self@.town,
    {
        self.town.clone()
    }

    /// The name to show for the municipality.
    pub fn to_string(&self) -> (r: String)
        ensures
            r@ == self@.display(),
    {
        let mut out = self.pref.clone();
        let town = strip_char(self.town.as_str(), IDEOGRAPHIC_SPACE);
        out.append(town.as_str());
        out
    }
}

/// The key under which a municipality code is filed.
pub open spec fn code_key(code: usize) -> Seq<char> {
    padded(decimal_digits(code as nat), KEY_WIDTH as nat, '0')
}

/// Writes a municipality code as a key.
pub fn key_of_code(code: usize) -> (r: String)
    ensures
        r@ == code_key(code),
{
    let digits = decimal(code);
    pad_left(digits.as_str(), KEY_WIDTH, '0')
}

/// A key denotes the code it was written for.
pub proof fn lemma_key_denotes_code(code: usize)
    ensures
        decimal_value(code_key(code)) == code,
{
    let digits = decimal_digits(code as nat);
    lemma_decimal_digits_denote(code as nat);
    if digits.len() < KEY_WIDTH {
        lemma_leading_zeros((KEY_WIDTH - digits.len()) as nat, digits);
    }
}

/// Different codes are filed under different keys.
pub proof fn lemma_code_key_injective(a: usize, b: usize)
    requires
        code_key(a) == code_key(b),
    ensures
        a == b,
{
    lemma_key_denotes_code(a);
    lemma_key_denotes_code(b);
}

} // verus!
