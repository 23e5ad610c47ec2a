//! Identifiers for rooms and games.
use vstd::prelude::*;
use uuid::Uuid;

verus! {

/// The `uuid` crate's identifier type, carried through unchanged.
#[verifier::external_type_specification]
#[verifier::external_body]
pub struct ExUuid(Uuid);

/// The version-5 UUID of a text (its UTF-8 bytes) in the OID namespace.
pub uninterp spec fn spec_uuid_v5_oid(name: Seq<char>) -> Uuid;

/// Calls `uuid::Uuid::new_v5` with `Uuid::NAMESPACE_OID` on the text's
/// bytes. Claimed: the identifier is a function of the text alone (named,
/// not spelled out; the crate derives it with SHA-1).
#[verifier::external_body]
fn uuid_v5_oid(name: &String) -> (r: Uuid)
    ensures
        r == spec_uuid_v5_oid(name@),
{
    Uuid::new_v5(&Uuid::NAMESPACE_OID, name.as_bytes())
}

/// The character of a decimal digit.
pub open spec fn spec_digit(d: int) -> char {
    if d == 0 {
        '0'
    } else if d == 1 {
        '1'
    } else if d == 2 {
        '2'
    } else if d == 3 {
        '3'
    } else if d == 4 {
        '4'
    } else if d == 5 {
        '5'
    } else if d == 6 {
        '6'
    } else if d == 7 {
        '7'
    } else if d == 8 {
        '8'
    } else {
        '9'
    }
}

/// The decimal digits of `n`, most significant first, without leading zeros.
pub open spec fn spec_decimal(n: nat) -> Seq<char>
    decreases n,
{
    if n < 10 {
        seq![spec_digit(n as int)]
    } else {
        spec_decimal(n / 10).push(spec_digit((n % 10) as int))
    }
}

/// The text that an identifier is derived from: the tag, the time in
/// nanoseconds and the counter, in decimal, joined by hyphens.
pub open spec fn spec_id_text(tag: Seq<char>, nanos: nat, counter: nat) -> Seq<char> {
    tag + seq!['-'] + spec_decimal(nanos) + seq!['-'] + spec_decimal(counter)
}

/// Appends one decimal digit.
fn push_digit(out: &mut String, d: u128)
    requires
        d < 10,
    ensures
        final(out)@ == old(out)@.push(spec_digit(d as int)),
{
    proof {
        reveal_strlit("0");
        reveal_strlit("1");
        reveal_strlit("2");
        reveal_strlit("3");
        reveal_strlit("4");
        reveal_strlit("5");
        reveal_strlit("6");
        reveal_strlit("7");
        reveal_strlit("8");
        reveal_strlit("9");
    }
    let s: &str = if d == 0 {
        "0"
    } else if d == 1 {
        "1"
    } else if d == 2 {
        "2"
    } else if d == 3 {
        "3"
    } else if d == 4 {
        "4"
    } else if d == 5 {
        "5"
    } else if d == 6 {
        "6"
    } else if d == 7 {
        "7"
    } else if d == 8 {
        "8"
    } else {
        "9"
    };
    assert(s@ =~= seq![spec_digit(d as int)]);
    out.append(s);
    assert(final(out)@ =~= old(out)@.push(spec_digit(d as int)));
}

/// Appends the decimal digits of `n`.
fn push_decimal(out: &mut String, n: u128)
    ensures
        final(out)@ == old(out)@ + spec_decimal(n as nat),
    decreases n,
{
    if n >= 10 {
        push_decimal(out, n / 10);
    }
    push_digit(out, n % 10);
    proof {
        if n < 10 {
            assert(old(out)@.push(spec_digit(n as int)) =~= old(out)@ + spec_decimal(n as nat));
        } else {
            assert((old(out)@ + spec_decimal((n / 10) as nat)).push(spec_digit((n % 10) as int))
                =~= old(out)@ + spec_decimal(n as nat));
        }
    }
}

/// The text `tag-nanos-counter`.
fn id_text(tag: &str, nanos: u128, counter: u64) -> (r: String)
    ensures
        r@ == spec_id_text(tag@, nanos as nat, counter as nat),
{
    proof {
        reveal_strlit("-");
    }
    let mut r = String::from_str(tag);
    r.append("-");
    push_decimal(&mut r, nanos);
    r.append("-");
    push_decimal(&mut r, counter as u128);
    assert(r@ =~= spec_id_text(tag@, nanos as nat, counter as nat));
    r
}

/// Hands out identifiers, each from a fresh count.
pub struct Server {
    counter: u64,
}

impl Server {
    /// The number of identifiers handed out.
    pub closed spec fn count(&self) -> u64 {
        self.counter
    }

    /// A server that has handed out no identifier.
    pub fn new() -> (s: Server)
        ensures
            s.count() == 0,
    {
        Server { counter: 0 }
    }

    /// The number of identifiers handed out.
    pub fn issued(&self) -> (n: u64)
        ensures
            n == self.count(),
    {
        self.counter
    }

    /// A new identifier for `tag` at the time `nanos` (nanoseconds since the
    /// Unix epoch): the count goes up by one, and the identifier is the
    /// version-5 UUID of `tag-nanos-count`.
    pub fn generate_uuid(&mut self, tag: &str, nanos: u128) -> (r: Uuid)
        requires
            old(self).count() < u64::MAX,
        ensures
            final(self).count() == old(self).count() + 1,
            r == spec_uuid_v5_oid(spec_id_text(tag@, nanos as nat, final(self).count() as nat)),
    {
        self.counter = self.counter + 1;
        let text = id_text(tag, nanos, self.counter);
        uuid_v5_oid(&text)
    }
}

impl Default for Server {
    /// A server that has handed out no identifier.
    fn default() -> (s: Server)
        ensures
            s.count() == 0,
    {
        Server::new()
    }
}

/// Every decimal text has at least one digit.
proof fn lemma_decimal_nonempty(n: nat)
    ensures
        spec_decimal(n).len() >= 1,
    decreases n,
{
    if n >= 10 {
        lemma_decimal_nonempty(n / 10);
    }
}

/// Different numbers have different decimal texts.
pub proof fn lemma_decimal_injective(a: nat, b: nat)
    requires
        a != b,
    ensures
        spec_decimal(a) != spec_decimal(b),
    decreases a + b,
{
    if spec_decimal(a) == spec_decimal(b) {
        if a < 10 && b < 10 {
            assert(spec_decimal(a)[0] == spec_digit(a as int));
            assert(spec_decimal(b)[0] == spec_digit(b as int));
            assert(false);
        } else if a < 10 {
            lemma_decimal_nonempty(b / 10);
            assert(spec_decimal(a).len() == 1);
            assert(spec_decimal(b).len() == spec_decimal(b / 10).len() + 1);
            assert(false);
        } else if b < 10 {
            lemma_decimal_nonempty(a / 10);
            assert(spec_decimal(b).len() == 1);
            assert(spec_decimal(a).len() == spec_decimal(a / 10).len() + 1);
            assert(false);
        } else {
            assert(spec_decimal(a).last() == spec_digit((a % 10) as int));
            assert(spec_decimal(b).last() == spec_digit((b % 10) as int));
            assert(a % 10 == b % 10);
            assert(spec_decimal(a / 10) =~= spec_decimal(a).drop_last());
            assert(spec_decimal(b / 10) =~= spec_decimal(b).drop_last());
            if a / 10 != b / 10 {
                lemma_decimal_injective(a / 10, b / 10);
            }
            assert(a / 10 == b / 10);
            assert(a == 10 * (a / 10) + a % 10);
            assert(b == 10 * (b / 10) + b % 10);
            assert(false);
        }
    }
}

/// A decimal text holds no hyphen.
proof fn lemma_decimal_no_hyphen(n: nat)
    ensures
        forall|i: int| 0 <= i < spec_decimal(n).len() ==> spec_decimal(n)[i] != '-',
    decreases n,
{
    if n >= 10 {
        lemma_decimal_no_hyphen(n / 10);
        assert forall|i: int| 0 <= i < spec_decimal(n).len() implies spec_decimal(n)[i] != '-' by {
            if i < spec_decimal(n / 10).len() {
                assert(spec_decimal(n)[i] == spec_decimal(n / 10)[i]);
            }
        }
    }
}

/// Identifiers asked for with different counts come from different texts,
/// whatever their tags and times: the count is what follows the last
/// hyphen. So the identifiers one server hands out come from pairwise
/// different texts.
pub proof fn lemma_id_texts_differ(t1: Seq<char>, n1: nat, c1: nat, t2: Seq<char>, n2: nat, c2: nat)
    requires
        c1 != c2,
    ensures
        spec_id_text(t1, n1, c1) != spec_id_text(t2, n2, c2),
{
    let d1 = spec_decimal(c1);
    let d2 = spec_decimal(c2);
    let p1 = t1 + seq!['-'] + spec_decimal(n1) + seq!['-'];
    let p2 = t2 + seq!['-'] + spec_decimal(n2) + seq!['-'];
    let a = spec_id_text(t1, n1, c1);
    let b = spec_id_text(t2, n2, c2);
    assert(a =~= p1 + d1);
    assert(b =~= p2 + d2);
    lemma_decimal_injective(c1, c2);
    lemma_decimal_no_hyphen(c1);
    lemma_decimal_no_hyphen(c2);
    if a == b {
        let l = a.len() as int;
        if d1.len() == d2.len() {
            assert(a.skip(l - d1.len()) =~= d1);
            assert(b.skip(l - d2.len()) =~= d2);
        } else if d1.len() < d2.len() {
            let k = l - d1.len() - 1;
            assert(a[k] == p1[p1.len() - 1]);
            assert(b[k] == d2[k - p2.len()]);
        } else {
            let k = l - d2.len() - 1;
            assert(b[k] == p2[p2.len() - 1]);
            assert(a[k] == d1[k - p1.len()]);
        }
    }
}

} // verus!
