use vstd::prelude::*;
use vstd::string::*;

verus! {

/// Which of a wallet's two address kinds is meant.
#[derive(Clone, Copy, Debug, PartialEq, Eq, Structural)]
pub enum AddressKind {
    /// An address suitable for receiving coins only.
    Coin,
    /// An address suitable for receiving spaces and coins.
    Space,
}

#[verifier::external_type_specification]
#[verifier::external_body]
pub struct ExListing(spaces_wallet::Listing);

/// Whether a piece of text is the JSON encoding of a market listing; a
/// function of the text alone.
pub uninterp spec fn parses_as_listing(s: Seq<char>) -> bool;

/// Relies on `serde_json::from_str` for `spaces_wallet::Listing`: whether
/// the text deserializes into a listing depends on the text alone.
#[verifier::external_body]
pub fn listing_from_str(s: &str) -> (r: Option<spaces_wallet::Listing>)
    ensures
        (r is Some) == parses_as_listing(s@),
{
    serde_json::from_str::<spaces_wallet::Listing>(s).ok()
}

/// Whether a piece of text would be accepted as a market listing.
pub fn is_valid_listing(s: &str) -> (r: bool)
    ensures
        r == parses_as_listing(s@),
{
    listing_from_str(s).is_some()
}

/// A decimal digit.
pub open spec fn is_digit_char(c: char) -> bool {
    48 <= c as u32 <= 57
}

/// A lower-case ASCII letter.
pub open spec fn is_lower_char(c: char) -> bool {
    97 <= c as u32 <= 122
}

/// The value of one decimal digit.
pub open spec fn digit_val(c: char) -> int {
    c as u32 - 48
}

/// Every character of the sequence is a decimal digit.
pub open spec fn all_digits(s: Seq<char>) -> bool {
    forall|i: int| 0 <= i < s.len() ==> is_digit_char(#[trigger] s[i])
}

/// The number written by a sequence of decimal digits, most significant
/// digit first; an empty sequence writes zero.
pub open spec fn dec_val(s: Seq<char>) -> int
    decreases s.len(),
{
    if s.len() == 0 {
        0
    } else {
        dec_val(s.drop_last()) * 10 + digit_val(s.last())
    }
}

/// Appending digits to a digit string never lowers its value.
proof fn lemma_dec_val_prefix(s: Seq<char>, k: int)
    requires
        0 <= k <= s.len(),
        all_digits(s),
        forall|i: int| 0 <= i < s.len() ==> 0 <= #[trigger] digit_val(s[i]),
    ensures
        0 <= dec_val(s.take(k)) <= dec_val(s),
    decreases s.len() - k,
{
    if k == s.len() {
        assert(s.take(k) =~= s);
        lemma_dec_val_nonneg(s);
    } else {
        lemma_dec_val_prefix(s, k + 1);
        assert(s.take(k + 1).drop_last() =~= s.take(k));
        assert(s.take(k + 1).last() == s[k]);
        lemma_dec_val_nonneg(s.take(k));
    }
}

proof fn lemma_dec_val_nonneg(s: Seq<char>)
    requires
        all_digits(s),
    ensures
        0 <= dec_val(s),
    decreases s.len(),
{
    if s.len() > 0 {
        assert(all_digits(s.drop_last())) by {
            assert(forall|i: int| 0 <= i < s.len() - 1 ==> s.drop_last()[i] == s[i]);
        }
        lemma_dec_val_nonneg(s.drop_last());
    }
}

/// Accepts the text of a space-name input field: digits, lower-case
/// letters and hyphens, in any arrangement.
pub fn is_slabel_input(s: &str) -> (r: bool)
    ensures
        r == slabel_input_chars(s@),
{
    let n = s.unicode_len();
    let mut k: usize = 0;
    while k < n
        invariant
            n == s@.len(),
            k <= n,
            forall|i: int|
                0 <= i < k ==> is_digit_char(#[trigger] s@[i]) || is_lower_char(s@[i]) || s@[i]
                    == '-',
        decreases n - k,
    {
        let c = s.get_char(k);
        let u = c as u32;
        if !((48 <= u && u <= 57) || (97 <= u && u <= 122) || c == '-') {
            assert(!(is_digit_char(s@[k as int]) || is_lower_char(s@[k as int]) || s@[k as int]
                == '-'));
            return false;
        }
        k += 1;
    }
    true
}

/// Accepts the text of a recipient input field: what a space name may hold,
/// plus the `@` prefix.
pub fn is_recipient_input(s: &str) -> (r: bool)
    ensures
        r == recipient_input_chars(s@),
{
    let n = s.unicode_len();
    let mut k: usize = 0;
    while k < n
        invariant
            n == s@.len(),
            k <= n,
            forall|i: int|
                0 <= i < k ==> is_digit_char(#[trigger] s@[i]) || is_lower_char(s@[i]) || s@[i]
                    == '-' || s@[i] == '@',
        decreases n - k,
    {
        let c = s.get_char(k);
        let u = c as u32;
        if !((48 <= u && u <= 57) || (97 <= u && u <= 122) || c == '-' || c == '@') {
            assert(!(is_digit_char(s@[k as int]) || is_lower_char(s@[k as int]) || s@[k as int]
                == '-' || s@[k as int] == '@'));
            return false;
        }
        k += 1;
    }
    true
}

/// Accepts the text of an amount input field: decimal digits only.
pub fn is_amount_input(s: &str) -> (r: bool)
    ensures
        r == all_digits(s@),
{
    let n = s.unicode_len();
    let mut k: usize = 0;
    while k < n
        invariant
            n == s@.len(),
            k <= n,
            forall|i: int| 0 <= i < k ==> is_digit_char(#[trigger] s@[i]),
        decreases n - k,
    {
        let c = s.get_char(k);
        let u = c as u32;
        if !(48 <= u && u <= 57) {
            assert(!is_digit_char(s@[k as int]));
            return false;
        }
        k += 1;
    }
    true
}

/// Accepts the text of a fee-rate input field: decimal digits only.
pub fn is_fee_rate_input(s: &str) -> (r: bool)
    ensures
        r == all_digits(s@),
{
    is_amount_input(s)
}

/// A recipient is any non-empty input, taken verbatim.
pub fn recipient_from_str(s: &str) -> (r: Option<String>)
    ensures
        r is Some <==> s@.len() > 0,
        r matches Some(t) ==> t@ == s@,
{
    if s.is_empty() {
        None
    } else {
        Some(s.to_owned())
    }
}

/// Reads a non-empty, all-digit string as a number, refusing one whose
/// value does not fit.
fn parse_u64(s: &str) -> (r: Option<u64>)
    ensures
        r is Some <==> (s@.len() > 0 && all_digits(s@) && dec_val(s@) <= u64::MAX),
        r matches Some(v) ==> v == dec_val(s@),
{
    let n = s.unicode_len();
    if n == 0 {
        return None;
    }
    let mut acc: u64 = 0;
    let mut k: usize = 0;
    while k < n
        invariant
            n == s@.len(),
            0 < n,
            k <= n,
            all_digits(s@.take(k as int)),
            acc == dec_val(s@.take(k as int)),
        decreases n - k,
    {
        let c = s.get_char(k);
        let u = c as u32;
        if !(48 <= u && u <= 57) {
            assert(!is_digit_char(s@[k as int]));
            return None;
        }
        let d = (u - 48) as u64;
        proof {
            assert(s@.take(k + 1).drop_last() =~= s@.take(k as int));
            assert(s@.take(k + 1).last() == s@[k as int]);
            assert(all_digits(s@.take(k + 1))) by {
                assert(forall|i: int| 0 <= i < k + 1 ==> s@.take(k + 1)[i] == s@[i]);
            }
        }
        let next = match acc.checked_mul(10) {
            Some(m) => m.checked_add(d),
            None => None,
        };
        match next {
            Some(v) => {
                acc = v;
            }
            None => {
                proof {
                    let t = s@.take(k + 1);
                    assert(dec_val(t) > u64::MAX);
                    if all_digits(s@) && dec_val(s@) <= u64::MAX {
                        lemma_dec_val_prefix(s@, k + 1);
                    }
                }
                return None;
            }
        }
        k += 1;
    }
    proof {
        assert(s@.take(n as int) =~= s@);
    }
    Some(acc)
}

/// The characters a space-name input field accepts.
pub open spec fn slabel_input_chars(s: Seq<char>) -> bool {
    forall|i: int|
        0 <= i < s.len() ==> is_digit_char(#[trigger] s[i]) || is_lower_char(s[i]) || s[i] == '-'
}

/// The characters a recipient input field accepts.
pub open spec fn recipient_input_chars(s: Seq<char>) -> bool {
    forall|i: int|
        0 <= i < s.len() ==> is_digit_char(#[trigger] s[i]) || is_lower_char(s[i]) || s[i] == '-'
            || s[i] == '@'
}

/// Text accepted as a recipient: anything non-empty.
pub open spec fn valid_recipient(s: Seq<char>) -> bool {
    s.len() > 0
}

/// Text accepted as an amount: decimal digits whose value fits.
pub open spec fn valid_amount(s: Seq<char>) -> bool {
    s.len() > 0 && all_digits(s) && dec_val(s) <= u64::MAX
}

/// Text accepted as a fee rate: empty (automatic) or a fitting number.
pub open spec fn valid_fee_rate(s: Seq<char>) -> bool {
    s.len() == 0 || (all_digits(s) && dec_val(s) <= u64::MAX)
}

/// The fee-rate choice a piece of input text stands for.
pub open spec fn fee_rate_opt_matches(s: Seq<char>, o: Option<FeeRate>) -> bool {
    if s.len() == 0 {
        o is None
    } else {
        o matches Some(f) && f.spec_sat_per_vb() == dec_val(s)
    }
}

/// Reads an amount typed in an input field: a non-empty string of decimal
/// digits giving the satoshi count.
pub fn amount_from_str(s: &str) -> (r: Option<Amount>)
    ensures
        r is Some <==> (s@.len() > 0 && all_digits(s@) && dec_val(s@) <= u64::MAX),
        r matches Some(a) ==> a.spec_sats() == dec_val(s@),
{
    match parse_u64(s) {
        Some(v) => Some(Amount::from_sat(v)),
        None => None,
    }
}

/// Reads a fee rate typed in an input field.  An empty field selects the
/// automatic fee rate (`Some(None)`); digits select an explicit rate.
pub fn fee_rate_from_str(s: &str) -> (r: Option<Option<FeeRate>>)
    ensures
        s@.len() == 0 ==> r == Some(Option::<FeeRate>::None),
        s@.len() > 0 ==> ((r is Some) <==> (all_digits(s@) && dec_val(s@) <= u64::MAX)),
        s@.len() > 0 && r is Some ==> (r matches Some(o) && o matches Some(f) && f.spec_sat_per_vb()
            == dec_val(s@)),
{
    if s.is_empty() {
        return Some(None);
    }
    match parse_u64(s) {
        Some(v) => Some(Some(FeeRate::from_sat_per_vb(v))),
        None => None,
    }
}

/// A quantity of coins, counted in satoshi.
#[derive(Clone, Copy, Debug, PartialEq, Eq, Structural, PartialOrd, Ord)]
pub struct Amount {
    sats: u64,
}

impl Amount {
    pub closed spec fn spec_sats(self) -> u64 {
        self.sats
    }

    pub fn from_sat(sats: u64) -> (r: Amount)
        ensures
            r.spec_sats() == sats,
    {
        Amount { sats }
    }

    pub fn to_sat(&self) -> (r: u64)
        ensures
            r == self.spec_sats(),
    {
        self.sats
    }
}

/// A transaction fee rate, counted in satoshi per virtual byte.
#[derive(Clone, Copy, Debug, PartialEq, Eq, Structural)]
pub struct FeeRate {
    sat_per_vb: u64,
}

impl FeeRate {
    pub closed spec fn spec_sat_per_vb(self) -> u64 {
        self.sat_per_vb
    }

    pub fn from_sat_per_vb(sat_per_vb: u64) -> (r: FeeRate)
        ensures
            r.spec_sat_per_vb() == sat_per_vb,
    {
        FeeRate { sat_per_vb }
    }

    pub fn to_sat_per_vb(&self) -> (r: u64)
        ensures
            r == self.spec_sat_per_vb(),
    {
        self.sat_per_vb
    }
}

} // verus!
