//! Ordered request parameters and their serialized form.
use vstd::prelude::*;
use crate::text::{decimal, spec_decimal};

verus! {

/// Hexadecimal digits, upper case, in order.
pub const HEX: &'static str = "0123456789ABCDEF";

pub open spec fn pair_view(p: (String, String)) -> (Seq<char>, Seq<char>) {
    (p.0@, p.1@)
}

pub open spec fn pairs_view(v: Seq<(String, String)>) -> Seq<(Seq<char>, Seq<char>)> {
    v.map_values(|p: (String, String)| pair_view(p))
}

/// An ordered sequence of request parameters. Keys may repeat: a list
/// argument adds one pair per element.
pub struct Query {
    pub pairs: Vec<(String, String)>,
}

impl View for Query {
    type V = Seq<(Seq<char>, Seq<char>)>;

    open spec fn view(&self) -> Seq<(Seq<char>, Seq<char>)> {
        pairs_view(self.pairs@)
    }
}

/// The pairs that a list argument adds: one per element, in order.
pub open spec fn list_pairs(key: Seq<char>, values: Seq<u64>) -> Seq<(Seq<char>, Seq<char>)> {
    values.map_values(|v: u64| (key, spec_decimal(v as nat)))
}

/// The text of an optional number.
pub open spec fn opt_decimal_view(v: Option<u64>) -> Option<Seq<char>> {
    match v {
        Some(n) => Some(spec_decimal(n as nat)),
        None => None,
    }
}

pub open spec fn opt_view(v: Option<String>) -> Option<Seq<char>> {
    match v {
        Some(s) => Some(s@),
        None => None,
    }
}

/// `true` or `false`.
pub open spec fn bool_text(b: bool) -> Seq<char> {
    if b { "true"@ } else { "false"@ }
}

/// Writes an optional number in decimal.
pub fn opt_decimal(v: Option<u64>) -> (r: Option<String>)
    ensures
        opt_view(r) == opt_decimal_view(v),
{
    match v {
        Some(n) => Some(decimal(n)),
        None => None,
    }
}

/// Writes an optional flag as `true` or `false`.
pub fn opt_bool(v: Option<bool>) -> (r: Option<String>)
    ensures
        opt_view(r) == match v {
            Some(b) => Some(bool_text(b)),
            None => None::<Seq<char>>,
        },
{
    match v {
        Some(b) => Some(
            if b {
                String::from_str("true")
            } else {
                String::from_str("false")
            },
        ),
        None => None,
    }
}

impl Query {
    /// An empty query.
    pub fn new() -> (r: Query)
        ensures
            r@ == Seq::<(Seq<char>, Seq<char>)>::empty(),
    {
        let r = Query { pairs: Vec::new() };
        assert(r@ =~= Seq::<(Seq<char>, Seq<char>)>::empty());
        r
    }

    /// A query holding one pair.
    pub fn with(key: &str, value: String) -> (r: Query)
        ensures
            r@ == seq![(key@, value@)],
    {
        Query::new().arg(key, value)
    }

    /// Appends a pair.
    pub fn arg(self, key: &str, value: String) -> (r: Query)
        ensures
            r@ == self@.push((key@, value@)),
    {
        let mut pairs = self.pairs;
        let ghost old_pairs = pairs@;
        pairs.push((String::from_str(key), value));
        let r = Query { pairs };
        assert(r@ =~= self@.push((key@, value@))) by {
            assert(pairs@ == old_pairs.push(pairs@.last()));
        }
        r
    }

    /// Appends a pair when a value is given; otherwise adds nothing.
    pub fn maybe_arg(self, key: &str, value: Option<String>) -> (r: Query)
        ensures
            r@ == match value {
                Some(v) => self@.push((key@, v@)),
                None => self@,
            },
    {
        match value {
            Some(v) => self.arg(key, v),
            None => self,
        }
    }

    /// Appends one pair per element, in order, when a list is given.
    pub fn maybe_arg_list(self, key: &str, values: Option<Vec<u64>>) -> (r: Query)
        ensures
            r@ == match values {
                Some(vs) => self@ + list_pairs(key@, vs@),
                None => self@,
            },
    {
        match values {
            None => self,
            Some(vs) => {
                let mut q = self;
                let mut i: usize = 0;
                while i < vs.len()
                    invariant
                        i <= vs@.len(),
                        q@ == self@ + list_pairs(key@, vs@.subrange(0, i as int)),
                    decreases vs.len() - i,
                {
                    q = q.arg(key, decimal(vs[i]));
                    assert(list_pairs(key@, vs@.subrange(0, i + 1)) =~= list_pairs(
                        key@,
                        vs@.subrange(0, i as int),
                    ).push((key@, spec_decimal(vs@[i as int] as nat))));
                    assert(q@ =~= self@ + list_pairs(key@, vs@.subrange(0, i + 1)));
                    i = i + 1;
                }
                assert(vs@.subrange(0, vs@.len() as int) =~= vs@);
                q
            },
        }
    }

    /// The finished sequence of pairs.
    pub fn build(self) -> (r: Vec<(String, String)>)
        ensures
            pairs_view(r@) == self@,
    {
        self.pairs
    }
}

/// The characters kept as they are in a URL component.
pub open spec fn is_unreserved(c: char) -> bool {
    ('a' <= c && c <= 'z') || ('A' <= c && c <= 'Z') || ('0' <= c && c <= '9') || c == '-'
        || c == '.' || c == '_' || c == '~'
}

/// The UTF-8 bytes of a character.
pub open spec fn utf8_bytes(c: char) -> Seq<u8> {
    let n = c as u32;
    if n < 0x80 {
        seq![n as u8]
    } else if n < 0x800 {
        seq![(0xC0 + n / 64) as u8, (0x80 + n % 64) as u8]
    } else if n < 0x10000 {
        seq![(0xE0 + n / 4096) as u8, (0x80 + (n / 64) % 64) as u8, (0x80 + n % 64) as u8]
    } else {
        seq![
            (0xF0 + n / 262144) as u8,
            (0x80 + (n / 4096) % 64) as u8,
            (0x80 + (n / 64) % 64) as u8,
            (0x80 + n % 64) as u8,
        ]
    }
}

/// `%` followed by the two hex digits of each byte.
pub open spec fn percent(bytes: Seq<u8>) -> Seq<char>
    decreases bytes.len(),
{
    if bytes.len() == 0 {
        Seq::empty()
    } else {
        percent(bytes.drop_last()) + seq![
            '%',
            HEX@[(bytes.last() / 16) as int],
            HEX@[(bytes.last() % 16) as int],
        ]
    }
}

/// How one character is written in a URL component: unreserved characters as
/// they are, every other character as its percent-encoded UTF-8 bytes.
pub open spec fn encode_char(c: char) -> Seq<char> {
    if is_unreserved(c) {
        seq![c]
    } else {
        percent(utf8_bytes(c))
    }
}

pub open spec fn encode(s: Seq<char>) -> Seq<char>
    decreases s.len(),
{
    if s.len() == 0 {
        Seq::empty()
    } else {
        encode(s.drop_last()) + encode_char(s.last())
    }
}

/// `key=value` pairs joined by `&`, each side encoded.
pub open spec fn serialize(pairs: Seq<(Seq<char>, Seq<char>)>) -> Seq<char>
    decreases pairs.len(),
{
    if pairs.len() == 0 {
        Seq::empty()
    } else {
        let p = pairs.last();
        let one = encode(p.0) + seq!['='] + encode(p.1);
        if pairs.len() == 1 {
            one
        } else {
            serialize(pairs.drop_last()) + seq!['&'] + one
        }
    }
}

fn hex_text(d: u32) -> (r: &'static str)
    requires
        d < 16,
    ensures
        r@ == seq![HEX@[d as int]],
{
    proof {
        reveal_strlit("0123456789ABCDEF");
    }
    let r = HEX.substring_char(d as usize, d as usize + 1);
    assert(r@ =~= seq![HEX@[d as int]]);
    r
}

fn utf8_of(c: char) -> (r: Vec<u8>)
    ensures
        r@ == utf8_bytes(c),
{
    let n = c as u32;
    let r = if n < 0x80 {
        vec![n as u8]
    } else if n < 0x800 {
        vec![(0xC0 + n / 64) as u8, (0x80 + n % 64) as u8]
    } else if n < 0x10000 {
        vec![(0xE0 + n / 4096) as u8, (0x80 + (n / 64) % 64) as u8, (0x80 + n % 64) as u8]
    } else {
        vec![
            (0xF0 + n / 262144) as u8,
            (0x80 + (n / 4096) % 64) as u8,
            (0x80 + (n / 64) % 64) as u8,
            (0x80 + n % 64) as u8,
        ]
    };
    assert(r@ =~= utf8_bytes(c));
    r
}

/// Appends `%` and the hex digits of each byte to `out`.
fn percent_into(out: &mut String, bytes: &Vec<u8>)
    ensures
        final(out)@ == old(out)@ + percent(bytes@),
{
    let mut i: usize = 0;
    assert(bytes@.subrange(0, 0) =~= Seq::<u8>::empty());
    while i < bytes.len()
        invariant
            i <= bytes@.len(),
            out@ == old(out)@ + percent(bytes@.subrange(0, i as int)),
        decreases bytes.len() - i,
    {
        let b = bytes[i];
        assert(bytes@.subrange(0, i + 1).drop_last() =~= bytes@.subrange(0, i as int));
        proof {
            reveal_strlit("%");
        }
        out.append("%");
        out.append(hex_text((b / 16) as u32));
        out.append(hex_text((b % 16) as u32));
        assert(out@ =~= old(out)@ + percent(bytes@.subrange(0, i + 1)));
        i = i + 1;
    }
    assert(bytes@.subrange(0, bytes@.len() as int) =~= bytes@);
}

/// Appends the URL-component form of `s` to `out`.
pub fn encode_into(out: &mut String, s: &str)
    ensures
        final(out)@ == old(out)@ + encode(s@),
{
    let n = s.unicode_len();
    let mut i: usize = 0;
    assert(s@.subrange(0, 0) =~= Seq::<char>::empty());
    while i < n
        invariant
            n == s@.len(),
            i <= n,
            out@ == old(out)@ + encode(s@.subrange(0, i as int)),
        decreases n - i,
    {
        let c = s.get_char(i);
        assert(s@.subrange(0, i + 1).drop_last() =~= s@.subrange(0, i as int));
        let unreserved = ('a' <= c && c <= 'z') || ('A' <= c && c <= 'Z') || ('0' <= c && c
            <= '9') || c == '-' || c == '.' || c == '_' || c == '~';
        if unreserved {
            let one = s.substring_char(i, i + 1);
            out.append(one);
            assert(one@ =~= seq![c]);
        } else {
            percent_into(out, &utf8_of(c));
        }
        assert(out@ =~= old(out)@ + encode(s@.subrange(0, i + 1)));
        i = i + 1;
    }
    assert(s@.subrange(0, n as int) =~= s@);
}

/// The serialized form of a sequence of pairs.
pub fn serialize_pairs(pairs: &Vec<(String, String)>) -> (r: String)
    ensures
        r@ == serialize(pairs_view(pairs@)),
{
    let mut out = String::new();
    let mut i: usize = 0;
    while i < pairs.len()
        invariant
            i <= pairs@.len(),
            out@ == serialize(pairs_view(pairs@.subrange(0, i as int))),
        decreases pairs.len() - i,
    {
        assert(pairs_view(pairs@.subrange(0, i + 1)).drop_last() =~= pairs_view(
            pairs@.subrange(0, i as int),
        ));
        assert(pairs_view(pairs@.subrange(0, i + 1)).last() == pair_view(pairs@[i as int]));
        if i > 0 {
            proof {
                reveal_strlit("&");
            }
            out.append("&");
        }
        encode_into(&mut out, pairs[i].0.as_str());
        proof {
            reveal_strlit("=");
        }
        out.append("=");
        encode_into(&mut out, pairs[i].1.as_str());
        assert(out@ =~= serialize(pairs_view(pairs@.subrange(0, i + 1))));
        i = i + 1;
    }
    assert(pairs@.subrange(0, pairs@.len() as int) =~= pairs@);
    out
}


/// The number of pairs in `q` whose key is `key`.
pub open spec fn key_count(q: Seq<(Seq<char>, Seq<char>)>, key: Seq<char>) -> nat
    decreases q.len(),
{
    if q.len() == 0 {
        0
    } else {
        key_count(q.drop_last(), key) + if q.last().0 == key {
            1nat
        } else {
            0nat
        }
    }
}

/// An optional argument adds no pair for its key when absent, and exactly one
/// pair, holding the given value, when present.
pub proof fn lemma_maybe_arg_entries(
    q: Seq<(Seq<char>, Seq<char>)>,
    key: Seq<char>,
    value: Option<Seq<char>>,
)
    ensures
        ({
            let r = match value {
                Some(v) => q.push((key, v)),
                None => q,
            };
            &&& value is None ==> key_count(r, key) == key_count(q, key)
            &&& value is Some ==> key_count(r, key) == key_count(q, key) + 1 && r.last() == (
                key,
                value->0,
            )
        }),
{
    match value {
        Some(v) => {
            assert(q.push((key, v)).drop_last() =~= q);
        },
        None => {},
    }
}

/// Two queries built from the same sequence of arguments serialize to the same text.
pub proof fn lemma_serialize_deterministic(a: Query, b: Query)
    requires
        a@ == b@,
    ensures
        serialize(a@) == serialize(b@),
{
}

} // verus!
