//! The authentication challenge message: four fields joined by a separator
//! in a fixed order, formatted exactly as the relay's verifier expects, and
//! a parser proved to invert the formatter.

use vstd::prelude::*;

verus! {

use vstd::string::StrSliceExecFns;
use vstd::string::StringExecFns;
use crate::digits::all_digits;
use crate::digits::dec_digits;
use crate::digits::dec_parse;
use crate::digits::digit_val;
use crate::digits::lemma_dec_digits_are_digits;
use crate::digits::lemma_dec_parse_of_digits;
use crate::digits::parse_u64_dec;
use crate::digits::u64_to_dec_string;
use crate::split::count_sep;
use crate::split::lemma_count_sep_append;
use crate::split::lemma_count_sep_zero;
use crate::split::lemma_split_append;
use crate::split::lemma_split_len;
use crate::split::lemma_split_no_sep;
use crate::split::sep;
use crate::split::split_fields;

/// The authentication challenge: domain, public identity, single-use nonce
/// and wall-clock timestamp in seconds.
pub struct AuthMessage {
    pub domain: String,
    pub public_identity: String,
    pub nonce: u64,
    pub timestamp: u64,
}

/// The canonical challenge string: the four fields joined by the separator,
/// in this exact order, with nothing before, between or after them.
pub open spec fn format_spec(
    domain: Seq<char>,
    identity: Seq<char>,
    nonce: u64,
    timestamp: u64,
) -> Seq<char> {
    domain + seq![sep()] + identity + seq![sep()] + dec_digits(nonce as nat) + seq![sep()]
        + dec_digits(timestamp as nat)
}

/// What parsing a challenge string yields: the four fields, if the string
/// splits into exactly four and the last two are decimal numbers.
pub open spec fn parse_spec(s: Seq<char>) -> Option<(Seq<char>, Seq<char>, u64, u64)> {
    let parts = split_fields(s);
    if parts.len() == 4 {
        match (dec_parse(parts[2]), dec_parse(parts[3])) {
            (Some(n), Some(t)) => Some((parts[0], parts[1], n, t)),
            _ => None,
        }
    } else {
        None
    }
}

impl AuthMessage {
    /// Valid fields hold no separator character.
    pub open spec fn wf(self) -> bool {
        count_sep(self.domain@) == 0 && count_sep(self.public_identity@) == 0
    }

    /// The challenge string of this message.
    pub open spec fn formatted(self) -> Seq<char> {
        format_spec(self.domain@, self.public_identity@, self.nonce, self.timestamp)
    }

    /// Format the message as the canonical challenge string.
    pub fn format(&self) -> (s: String)
        ensures
            s@ == self.formatted(),
    {
        let mut s = self.domain.clone();
        s.append("|");
        s.append(self.public_identity.as_str());
        s.append("|");
        let nonce_str = u64_to_dec_string(self.nonce);
        s.append(nonce_str.as_str());
        s.append("|");
        let ts_str = u64_to_dec_string(self.timestamp);
        s.append(ts_str.as_str());
        proof {
            reveal_strlit("|");
            assert("|"@ =~= seq![sep()]);
            assert(s@ =~= self.formatted());
        }
        s
    }
}

/// A string of decimal digits holds no separator character.
proof fn lemma_digits_no_sep(s: Seq<char>)
    requires
        all_digits(s),
    ensures
        count_sep(s) == 0,
{
    assert(forall|i: int| 0 <= i < s.len() ==> #[trigger] s[i] != sep()) by {
        assert(forall|i: int| 0 <= i < s.len() ==> digit_val(#[trigger] s[i]) < 10);
        assert(digit_val(sep()) == 10);
    }
    lemma_count_sep_zero(s);
}

/// The split of a formatted challenge string is exactly its four fields.
proof fn lemma_split_of_format(domain: Seq<char>, identity: Seq<char>, nonce: u64, timestamp: u64)
    requires
        count_sep(domain) == 0,
        count_sep(identity) == 0,
    ensures
        split_fields(format_spec(domain, identity, nonce, timestamp)) == seq![
            domain,
            identity,
            dec_digits(nonce as nat),
            dec_digits(timestamp as nat),
        ],
{
    let nn = dec_digits(nonce as nat);
    let tt = dec_digits(timestamp as nat);
    lemma_dec_digits_are_digits(nonce as nat);
    lemma_dec_digits_are_digits(timestamp as nat);
    lemma_digits_no_sep(nn);
    lemma_digits_no_sep(tt);
    lemma_split_no_sep(domain);
    lemma_split_append(domain, identity);
    lemma_split_append(domain + seq![sep()] + identity, nn);
    lemma_split_append(domain + seq![sep()] + identity + seq![sep()] + nn, tt);
    assert(split_fields(format_spec(domain, identity, nonce, timestamp)) =~~= seq![
        domain,
        identity,
        nn,
        tt,
    ]);
}

/// Law: formatting an auth message and parsing the string back yields the
/// original four fields, and the formatted string holds exactly three
/// separator characters.
pub proof fn lemma_format_parse_round_trip(
    domain: Seq<char>,
    identity: Seq<char>,
    nonce: u64,
    timestamp: u64,
)
    requires
        count_sep(domain) == 0,
        count_sep(identity) == 0,
    ensures
        parse_spec(format_spec(domain, identity, nonce, timestamp)) == Some(
            (domain, identity, nonce, timestamp),
        ),
        count_sep(format_spec(domain, identity, nonce, timestamp)) == 3,
{
    let nn = dec_digits(nonce as nat);
    let tt = dec_digits(timestamp as nat);
    lemma_split_of_format(domain, identity, nonce, timestamp);
    lemma_dec_parse_of_digits(nonce);
    lemma_dec_parse_of_digits(timestamp);
    let parts = split_fields(format_spec(domain, identity, nonce, timestamp));
    assert(parts.len() == 4 && parts[2] == nn && parts[3] == tt);
    lemma_dec_digits_are_digits(nonce as nat);
    lemma_dec_digits_are_digits(timestamp as nat);
    lemma_digits_no_sep(nn);
    lemma_digits_no_sep(tt);
    assert(count_sep(seq![sep()]) == 1) by {
        assert(seq![sep()].drop_last() =~= Seq::<char>::empty());
        assert(count_sep(Seq::<char>::empty()) == 0);
    }
    lemma_count_sep_append(domain, seq![sep()]);
    lemma_count_sep_append(domain + seq![sep()], identity);
    lemma_count_sep_append(domain + seq![sep()] + identity, seq![sep()]);
    lemma_count_sep_append(domain + seq![sep()] + identity + seq![sep()], nn);
    lemma_count_sep_append(domain + seq![sep()] + identity + seq![sep()] + nn, seq![sep()]);
    lemma_count_sep_append(
        domain + seq![sep()] + identity + seq![sep()] + nn + seq![sep()],
        tt,
    );
}

/// The positions of all separator characters in `s`, in increasing order.
fn sep_positions(s: &str) -> (p: Vec<usize>)
    ensures
        p@.len() == count_sep(s@),
        forall|k: int| 0 <= k < p@.len() ==> #[trigger] p@[k] < s@.len(),
        forall|k1: int, k2: int| 0 <= k1 < k2 < p@.len() ==> p@[k1] < p@[k2],
        forall|j: int|
            0 <= j < s@.len() ==> (s@[j] == sep() <==> exists|k: int|
                0 <= k < p@.len() && #[trigger] p@[k] == j),
{
    let len = s.unicode_len();
    let mut p: Vec<usize> = Vec::new();
    let mut i: usize = 0;
    while i < len
        invariant
            0 <= i <= len,
            len == s@.len(),
            p@.len() == count_sep(s@.take(i as int)),
            forall|k: int| 0 <= k < p@.len() ==> #[trigger] p@[k] < i,
            forall|k1: int, k2: int| 0 <= k1 < k2 < p@.len() ==> p@[k1] < p@[k2],
            forall|j: int|
                0 <= j < i ==> (s@[j] == sep() <==> exists|k: int|
                    0 <= k < p@.len() && #[trigger] p@[k] == j),
        decreases len - i,
    {
        let c = s.get_char(i);
        proof {
            assert(s@.take(i + 1).drop_last() =~= s@.take(i as int));
            assert(s@.take(i + 1).last() == s@[i as int]);
            assert(count_sep(s@.take(i + 1)) == count_sep(s@.take(i as int)) + if s@[i as int]
                == sep() {
                1nat
            } else {
                0nat
            });
        }
        let ghost oldp = p@;
        if c == '|' {
            p.push(i);
        }
        proof {
            assert forall|j: int|
                0 <= j < i + 1 implies (s@[j] == sep() <==> exists|k: int|
                0 <= k < p@.len() && #[trigger] p@[k] == j) by {
                if c == '|' {
                    assert(p@ == oldp.push(i as usize));
                    assert(p@[p@.len() - 1] == i as usize);
                    if j < i {
                        if s@[j] == sep() {
                            let k0 = choose|k: int| 0 <= k < oldp.len() && oldp[k] == j;
                            assert(p@[k0] == j);
                        } else {
                            if exists|k: int| 0 <= k < p@.len() && #[trigger] p@[k] == j {
                                let k0 = choose|k: int| 0 <= k < p@.len() && p@[k] == j;
                                assert(k0 < oldp.len());
                                assert(oldp[k0] == j);
                            }
                        }
                    } else {
                        assert(s@[j] == sep());
                    }
                } else {
                    if j < i {
                    } else {
                        assert(s@[j] != sep());
                        if exists|k: int| 0 <= k < p@.len() && #[trigger] p@[k] == j {
                            let k0 = choose|k: int| 0 <= k < p@.len() && p@[k] == j;
                            assert(p@[k0] < i);
                        }
                    }
                }
            }
        }
        i = i + 1;
    }
    proof {
        assert(s@.take(len as int) =~= s@);
    }
    p
}

/// Parse a challenge string into its four fields, exactly as the spec-level
/// parse says: the string must split into four fields on the separator, and
/// the last two must be decimal numbers that fit in a `u64`.
#[verifier::rlimit(50)]
pub fn parse(s: &str) -> (r: Option<AuthMessage>)
    ensures
        r is Some <==> parse_spec(s@) is Some,
        r matches Some(m) ==> parse_spec(s@) == Some(
            (m.domain@, m.public_identity@, m.nonce, m.timestamp),
        ) && m.wf(),
{
    let len = s.unicode_len();
    let p = sep_positions(s);
    proof {
        lemma_split_len(s@);
    }
    if p.len() != 3 {
        return None;
    }
    let p1 = p[0];
    let p2 = p[1];
    let p3 = p[2];
    proof {
        assert(p@[0] == p1 && p@[1] == p2 && p@[2] == p3);
        assert(s@[p1 as int] == sep());
        assert(s@[p2 as int] == sep());
        assert(s@[p3 as int] == sep());
    }
    let a = s.substring_char(0, p1);
    let b = s.substring_char(p1 + 1, p2);
    let c = s.substring_char(p2 + 1, p3);
    let d = s.substring_char(p3 + 1, len);
    proof {
        let sv = s@;
        assert forall|j: int|
            0 <= j < sv.len() && j != p1 && j != p2 && j != p3 implies #[trigger] sv[j]
            != sep() by {
            if sv[j] == sep() {
                let k0 = choose|k: int| 0 <= k < p@.len() && p@[k] == j;
                assert(k0 == 0 || k0 == 1 || k0 == 2);
            }
        }
        lemma_count_sep_zero(a@);
        lemma_count_sep_zero(b@);
        lemma_count_sep_zero(c@);
        lemma_count_sep_zero(d@);
        assert(count_sep(a@) == 0);
        assert(count_sep(b@) == 0);
        assert(count_sep(c@) == 0);
        assert(count_sep(d@) == 0);
        assert(sv =~= a@ + seq![sep()] + b@ + seq![sep()] + c@ + seq![sep()] + d@);
        lemma_split_no_sep(a@);
        lemma_split_append(a@, b@);
        lemma_split_append(a@ + seq![sep()] + b@, c@);
        lemma_split_append(a@ + seq![sep()] + b@ + seq![sep()] + c@, d@);
        assert(split_fields(sv) =~~= seq![a@, b@, c@, d@]);
    }
    let nonce = match parse_u64_dec(c) {
        Some(n) => n,
        None => {
            return None;
        },
    };
    let timestamp = match parse_u64_dec(d) {
        Some(t) => t,
        None => {
            return None;
        },
    };
    Some(
        AuthMessage {
            domain: String::from_str(a),
            public_identity: String::from_str(b),
            nonce,
            timestamp,
        },
    )
}

} // verus!
