use vstd::prelude::*;

use vstd::string::*;

use crate::casing::lower_camel;
use crate::metrics::{HistogramType, Lifetime, MemoryUnit, TimeUnit};

verus! {

/// A value handed to the literal serializer.
#[derive(Debug)]
pub enum Value {
    Null,
    Bool(bool),
    Number(u64),
    Str(String),
    Lifetime(Lifetime),
    MemoryUnit(MemoryUnit),
    TimeUnit(TimeUnit),
    HistogramType(HistogramType),
    List(Vec<Value>),
    Mapping(Vec<(String, Value)>),
}

/// The serializer met a value that has no literal form (a mapping, null or a boolean).
#[derive(Debug, PartialEq, Eq, Structural)]
pub struct UnsupportedValue;

/// Digit `d` (below sixteen) in lowercase hexadecimal; the decimal digits are the first ten.
pub open spec fn hex_char(d: nat) -> char {
    if d == 0 { '0' } else if d == 1 { '1' } else if d == 2 { '2' } else if d == 3 { '3' }
    else if d == 4 { '4' } else if d == 5 { '5' } else if d == 6 { '6' } else if d == 7 { '7' }
    else if d == 8 { '8' } else if d == 9 { '9' } else if d == 10 { 'a' } else if d == 11 { 'b' }
    else if d == 12 { 'c' } else if d == 13 { 'd' } else if d == 14 { 'e' } else { 'f' }
}

/// The canonical decimal text of `n`.
pub open spec fn decimal(n: nat) -> Seq<char>
    decreases n,
{
    if n < 10 {
        seq![hex_char(n)]
    } else {
        decimal(n / 10).push(hex_char(n % 10))
    }
}

/// A character that a string literal cannot hold as it is and that has no short escape.
pub open spec fn needs_code_escape(c: char) -> bool {
    (c as u32) < 0x20 || (c as u32) == 0x7f
}

/// How one character of a string stands inside the quotes of a literal.
pub open spec fn escape_char(c: char) -> Seq<char> {
    if c == '"' {
        seq!['\\', '"']
    } else if c == '\\' {
        seq!['\\', '\\']
    } else if c == '\n' {
        seq!['\\', 'n']
    } else if c == '\r' {
        seq!['\\', 'r']
    } else if c == '\t' {
        seq!['\\', 't']
    } else if c == '\0' {
        seq!['\\', '0']
    } else if needs_code_escape(c) {
        seq!['\\', 'u', '{', hex_char((c as u32) as nat / 16), hex_char((c as u32) as nat % 16), '}']
    } else {
        seq![c]
    }
}

/// The escaped text of `s`, character by character.
pub open spec fn escape(s: Seq<char>) -> Seq<char>
    decreases s.len(),
{
    if s.len() == 0 {
        seq![]
    } else {
        escape_char(s[0]) + escape(s.skip(1))
    }
}

/// The string literal that denotes `s`.
pub open spec fn quote(s: Seq<char>) -> Seq<char> {
    seq!['"'] + escape(s) + seq!['"']
}

/// The reference to an enumerated case of the given canonical name.
pub open spec fn enum_ref(name: Seq<char>) -> Seq<char> {
    seq!['.'] + name
}

/// The parts joined with `", "` between neighbours.
pub open spec fn join(parts: Seq<Seq<char>>) -> Seq<char>
    decreases parts.len(),
{
    if parts.len() == 0 {
        seq![]
    } else if parts.len() == 1 {
        parts[0]
    } else {
        join(parts.drop_last()) + seq![',', ' '] + parts.last()
    }
}

/// The literal of `v`, or `None` where `v` (or a value inside it) has no literal form.
pub open spec fn literal_of(v: Value) -> Option<Seq<char>>
    decreases v,
{
    match v {
        Value::Str(s) => Some(quote(s@)),
        Value::Number(n) => Some(decimal(n as nat)),
        Value::Lifetime(x) => Some(enum_ref(x.name_spec())),
        Value::MemoryUnit(x) => Some(enum_ref(x.name_spec())),
        Value::TimeUnit(x) => Some(enum_ref(x.name_spec())),
        Value::HistogramType(x) => Some(enum_ref(x.name_spec())),
        Value::List(items) => match items_literals(items@, items@.len()) {
            Some(parts) => Some(seq!['['] + join(parts) + seq![']']),
            None => None,
        },
        _ => None,
    }
}

/// The literals of the first `n` items, or `None` where one of them has none.
pub open spec fn items_literals(s: Seq<Value>, n: nat) -> Option<Seq<Seq<char>>>
    decreases s, n,
{
    if n == 0 || n > s.len() {
        Some(seq![])
    } else {
        match items_literals(s, (n - 1) as nat) {
            Some(parts) => match literal_of(s[n - 1]) {
                Some(l) => Some(parts.push(l)),
                None => None,
            },
            None => None,
        }
    }
}

proof fn lemma_items_none_stays(s: Seq<Value>, k: nat, n: nat)
    requires
        k <= n <= s.len(),
        items_literals(s, k) is None,
    ensures
        items_literals(s, n) is None,
    decreases n,
{
    if n > k {
        lemma_items_none_stays(s, k, (n - 1) as nat);
    }
}

fn digit(d: u32) -> (r: char)
    requires
        d < 16,
    ensures
        r == hex_char(d as nat),
{
    if d == 0 { '0' } else if d == 1 { '1' } else if d == 2 { '2' } else if d == 3 { '3' }
    else if d == 4 { '4' } else if d == 5 { '5' } else if d == 6 { '6' } else if d == 7 { '7' }
    else if d == 8 { '8' } else if d == 9 { '9' } else if d == 10 { 'a' } else if d == 11 { 'b' }
    else if d == 12 { 'c' } else if d == 13 { 'd' } else if d == 14 { 'e' } else { 'f' }
}

fn write_decimal(n: u64, out: &mut Vec<char>)
    ensures
        final(out)@ == old(out)@ + decimal(n as nat),
    decreases n,
{
    if n >= 10 {
        write_decimal(n / 10, out);
    }
    out.push(digit((n % 10) as u32));
    proof {
        if n < 10 {
            assert(n as nat % 10 == n as nat);
        }
    }
}

proof fn lemma_escape_step(s: Seq<char>, i: int)
    requires
        0 <= i < s.len(),
    ensures
        escape(s.take(i + 1)) == escape(s.take(i)) + escape_char(s[i]),
    decreases i,
{
    if i == 0 {
        assert(s.take(1).skip(1) =~= seq![]);
        assert(escape(s.take(0)) =~= seq![]);
        assert(escape(s.take(1)) =~= escape_char(s[0]) + escape(seq![]));
    } else {
        let t = s.skip(1);
        lemma_escape_step(t, i - 1);
        assert(s.take(i + 1).skip(1) =~= t.take(i));
        assert(s.take(i).skip(1) =~= t.take(i - 1));
        assert(t[i - 1] == s[i]);
        assert(escape(s.take(i + 1)) == escape_char(s[0]) + escape(t.take(i)));
        assert(escape(s.take(i)) == escape_char(s[0]) + escape(t.take(i - 1)));
        assert(escape(s.take(i + 1)) =~= escape(s.take(i)) + escape_char(s[i]));
    }
}

fn write_escaped_char(c: char, out: &mut Vec<char>)
    ensures
        final(out)@ == old(out)@ + escape_char(c),
{
    let code = c as u32;
    if c == '"' {
        out.push('\\');
        out.push('"');
    } else if c == '\\' {
        out.push('\\');
        out.push('\\');
    } else if c == '\n' {
        out.push('\\');
        out.push('n');
    } else if c == '\r' {
        out.push('\\');
        out.push('r');
    } else if c == '\t' {
        out.push('\\');
        out.push('t');
    } else if c == '\0' {
        out.push('\\');
        out.push('0');
    } else if code < 0x20 || code == 0x7f {
        out.push('\\');
        out.push('u');
        out.push('{');
        out.push(digit(code / 16));
        out.push(digit(code % 16));
        out.push('}');
    } else {
        out.push(c);
    }
    assert(final(out)@ =~= old(out)@ + escape_char(c));
}

fn write_quoted(s: &str, out: &mut Vec<char>)
    ensures
        final(out)@ == old(out)@ + quote(s@),
{
    let n = s.unicode_len();
    out.push('"');
    let mut i: usize = 0;
    while i < n
        invariant
            n == s@.len(),
            0 <= i <= n,
            out@ == old(out)@ + seq!['"'] + escape(s@.take(i as int)),
        decreases n - i,
    {
        let c = s.get_char(i);
        write_escaped_char(c, out);
        proof {
            lemma_escape_step(s@, i as int);
        }
        i = i + 1;
    }
    out.push('"');
    assert(s@.take(n as int) =~= s@);
    assert(out@ =~= old(out)@ + quote(s@));
}

fn write_str(s: &str, out: &mut Vec<char>)
    ensures
        final(out)@ == old(out)@ + s@,
{
    let n = s.unicode_len();
    let mut i: usize = 0;
    while i < n
        invariant
            n == s@.len(),
            0 <= i <= n,
            out@ == old(out)@ + s@.take(i as int),
        decreases n - i,
    {
        out.push(s.get_char(i));
        assert(s@.take(i + 1) =~= s@.take(i as int).push(s@[i as int]));
        i = i + 1;
    }
    assert(s@.take(n as int) =~= s@);
}

/// Writes the reference to an enumerated case whose canonical name is `name`.
fn write_enum_ref(name: &str, out: &mut Vec<char>)
    requires
        crate::casing::is_lower_word(name@),
    ensures
        final(out)@ == old(out)@ + enum_ref(name@),
{
    let member = lower_camel(name);
    out.push('.');
    write_str(member.as_str(), out);
    assert(final(out)@ =~= old(out)@ + enum_ref(name@));
}

proof fn lemma_lower_words()
    ensures
        forall|x: Lifetime| crate::casing::is_lower_word(#[trigger] x.name_spec()),
        forall|x: MemoryUnit| crate::casing::is_lower_word(#[trigger] x.name_spec()),
        forall|x: TimeUnit| crate::casing::is_lower_word(#[trigger] x.name_spec()),
        forall|x: HistogramType| crate::casing::is_lower_word(#[trigger] x.name_spec()),
{
    reveal_strlit("ping");
    reveal_strlit("application");
    reveal_strlit("user");
    reveal_strlit("byte");
    reveal_strlit("kilobyte");
    reveal_strlit("megabyte");
    reveal_strlit("gigabyte");
    reveal_strlit("millisecond");
    reveal_strlit("second");
    reveal_strlit("minute");
    reveal_strlit("hour");
    reveal_strlit("day");
    reveal_strlit("linear");
    reveal_strlit("exponential");
}

fn write_literal(v: &Value, out: &mut Vec<char>) -> (r: Result<(), UnsupportedValue>)
    ensures
        r is Ok <==> literal_of(*v) is Some,
        r is Ok ==> final(out)@ == old(out)@ + literal_of(*v).unwrap(),
    decreases v,
{
    proof {
        lemma_lower_words();
    }
    match v {
        Value::Str(s) => {
            write_quoted(s.as_str(), out);
            Ok(())
        },
        Value::Number(n) => {
            write_decimal(*n, out);
            Ok(())
        },
        Value::Lifetime(x) => {
            write_enum_ref(x.name(), out);
            Ok(())
        },
        Value::MemoryUnit(x) => {
            write_enum_ref(x.name(), out);
            Ok(())
        },
        Value::TimeUnit(x) => {
            write_enum_ref(x.name(), out);
            Ok(())
        },
        Value::HistogramType(x) => {
            write_enum_ref(x.name(), out);
            Ok(())
        },
        Value::List(items) => {
            assert(*v == Value::List(*items));
            let ghost start = out@;
            out.push('[');
            let mut i: usize = 0;
            while i < items.len()
                invariant
                    *v == Value::List(*items),
                    0 <= i <= items.len(),
                    items_literals(items@, i as nat) is Some,
                    out@ == start + seq!['['] + join(items_literals(items@, i as nat).unwrap()),
                decreases items.len() - i,
            {
                let ghost parts = items_literals(items@, i as nat).unwrap();
                if i > 0 {
                    out.push(',');
                    out.push(' ');
                }
                proof {
                    vstd::std_specs::vec::axiom_vec_index_decreases(*items, i as int);
                }
                let r = write_literal(&items[i], out);
                if r.is_err() {
                    proof {
                        assert(items_literals(items@, (i + 1) as nat) is None);
                        lemma_items_none_stays(items@, (i + 1) as nat, items@.len());
                    }
                    return Err(UnsupportedValue);
                }
                proof {
                    let l = literal_of(items@[i as int]).unwrap();
                    assert(items_literals(items@, (i + 1) as nat) == Some(parts.push(l)));
                    assert(parts.push(l).drop_last() =~= parts);
                    if i == 0 {
                        assert(parts.len() == 0) by {
                            assert(items_literals(items@, 0) == Some(Seq::<Seq<char>>::empty()));
                        }
                        assert(join(parts.push(l)) == l);
                        assert(out@ =~= start + seq!['['] + join(parts.push(l)));
                    } else {
                        lemma_items_len(items@, i as nat);
                        assert(join(parts.push(l)) == join(parts) + seq![',', ' '] + l);
                        assert(out@ =~= start + seq!['['] + join(parts.push(l)));
                    }
                }
                i = i + 1;
            }
            out.push(']');
            assert(out@ =~= start + literal_of(*v).unwrap());
            Ok(())
        },
        _ => Err(UnsupportedValue),
    }
}

proof fn lemma_items_len(s: Seq<Value>, n: nat)
    requires
        n <= s.len(),
        items_literals(s, n) is Some,
    ensures
        items_literals(s, n).unwrap().len() == n,
        forall|i: int|
            0 <= i < n ==> Some(#[trigger] items_literals(s, n).unwrap()[i]) == literal_of(s[i]),
    decreases n,
{
    if n > 0 {
        lemma_items_len(s, (n - 1) as nat);
    }
}

/// Relies on std's `FromIterator<char>` for `String`: the characters in order.
#[verifier::external_body]
fn string_from_chars(chars: &Vec<char>) -> (r: String)
    ensures
        r@ == chars@,
{
    chars.iter().collect()
}

/// The literal text of `value` in the generated code: a quoted, escaped string;
/// a number in decimal; an enumerated case as `.` and its name; a list as `[a, b]`.
/// A mapping, null or boolean anywhere in `value` is refused.
pub fn swift_ty(value: &Value) -> (r: Result<String, UnsupportedValue>)
    ensures
        match literal_of(*value) {
            Some(l) => r is Ok && r.unwrap()@ == l,
            None => r is Err,
        },
{
    let mut out: Vec<char> = Vec::new();
    match write_literal(value, &mut out) {
        Ok(()) => {
            assert(out@ =~= literal_of(*value).unwrap());
            Ok(string_from_chars(&out))
        },
        Err(e) => Err(e),
    }
}

/// The value of a lowercase hexadecimal digit, or -1 for any other character.
pub open spec fn hex_val(c: char) -> int {
    if '0' <= c && c <= '9' {
        c as int - '0' as int
    } else if 'a' <= c && c <= 'f' {
        c as int - 'a' as int + 10
    } else {
        -1
    }
}

pub open spec fn code_of(c: char) -> int {
    (c as u32) as int
}

/// The character whose code is `code`.
pub open spec fn char_of(code: int) -> char {
    choose|c: char| #[trigger] code_of(c) == code
}

/// The character that a short escape `\x` stands for.
pub open spec fn short_unescape(x: char) -> Option<char> {
    if x == '"' {
        Some('"')
    } else if x == '\\' {
        Some('\\')
    } else if x == 'n' {
        Some('\n')
    } else if x == 'r' {
        Some('\r')
    } else if x == 't' {
        Some('\t')
    } else if x == '0' {
        Some('\0')
    } else {
        None
    }
}

pub open spec fn prepend(c: char, rest: Option<Seq<char>>) -> Option<Seq<char>> {
    match rest {
        Some(r) => Some(seq![c] + r),
        None => None,
    }
}

/// Reads the body of a string literal (the text between the quotes) back into the
/// string it denotes, or `None` where it is not a well-formed body.
pub open spec fn unescape(t: Seq<char>) -> Option<Seq<char>>
    decreases t.len(),
{
    if t.len() == 0 {
        Some(seq![])
    } else if t[0] == '"' {
        None
    } else if t[0] != '\\' {
        prepend(t[0], unescape(t.skip(1)))
    } else if t.len() < 2 {
        None
    } else if t[1] == 'u' {
        if t.len() >= 6 && t[2] == '{' && t[5] == '}' && hex_val(t[3]) >= 0 && hex_val(t[4]) >= 0 {
            prepend(char_of(16 * hex_val(t[3]) + hex_val(t[4])), unescape(t.skip(6)))
        } else {
            None
        }
    } else {
        match short_unescape(t[1]) {
            Some(c) => prepend(c, unescape(t.skip(2))),
            None => None,
        }
    }
}

/// Reads a string literal back into the string it denotes.
pub open spec fn read_literal(t: Seq<char>) -> Option<Seq<char>> {
    if t.len() >= 2 && t[0] == '"' && t[t.len() - 1] == '"' {
        unescape(t.subrange(1, t.len() - 1))
    } else {
        None
    }
}

proof fn lemma_hex_round_trip(d: nat)
    requires
        d < 16,
    ensures
        hex_val(hex_char(d)) == d,
{
}

proof fn lemma_unescape_escape(s: Seq<char>)
    ensures
        unescape(escape(s)) == Some(s),
    decreases s.len(),
{
    if s.len() > 0 {
        let c = s[0];
        let e = escape_char(c);
        let rest = escape(s.skip(1));
        let t = e + rest;
        lemma_unescape_escape(s.skip(1));
        assert(t.skip(e.len() as int) =~= rest);
        if needs_code_escape(c) && c != '\n' && c != '\r' && c != '\t' && c != '\0' {
            let code = (c as u32) as nat;
            vstd::utf8::char_is_scalar(c);
            lemma_hex_round_trip(code / 16);
            lemma_hex_round_trip(code % 16);
            assert(t[3] == hex_char(code / 16));
            assert(t[4] == hex_char(code % 16));
            assert(16 * hex_val(t[3]) + hex_val(t[4]) == code_of(c));
            let d = char_of(code_of(c));
            assert(code_of(d) == code_of(c));
            vstd::utf8::char_u32_cast(c, c as u32);
            vstd::utf8::char_u32_cast(d, d as u32);
            assert(d == c);
        }
        assert(unescape(t) == prepend(c, Some(s.skip(1))));
        assert(seq![c] + s.skip(1) =~= s);
    }
}

/// A string literal, read back, yields the string it was made from.
pub proof fn lemma_string_literal_round_trip(s: String)
    ensures
        literal_of(Value::Str(s)) is Some,
        read_literal(literal_of(Value::Str(s)).unwrap()) == Some(s@),
{
    let q = quote(s@);
    lemma_unescape_escape(s@);
    assert(q.subrange(1, q.len() - 1) =~= escape(s@));
}

/// `v` is a string, a number or an enumerated case.
pub open spec fn is_scalar(v: Value) -> bool {
    match v {
        Value::Str(_) | Value::Number(_) | Value::Lifetime(_) | Value::MemoryUnit(_)
        | Value::TimeUnit(_) | Value::HistogramType(_) => true,
        _ => false,
    }
}

proof fn lemma_scalar_items(s: Seq<Value>, n: nat)
    requires
        n <= s.len(),
        forall|i: int| 0 <= i < s.len() ==> is_scalar(#[trigger] s[i]),
    ensures
        items_literals(s, n) is Some,
    decreases n,
{
    if n > 0 {
        lemma_scalar_items(s, (n - 1) as nat);
        assert(is_scalar(s[n - 1]));
        assert(literal_of(s[n - 1]) is Some);
    }
}

/// A list of scalars is written as `[`, the literals of its items in their order
/// with `", "` between neighbours, and `]`: as many literals as items.
pub proof fn lemma_list_literal(items: Vec<Value>)
    requires
        forall|i: int| 0 <= i < items@.len() ==> is_scalar(#[trigger] items@[i]),
    ensures
        items_literals(items@, items@.len()) is Some,
        ({
            let parts = items_literals(items@, items@.len()).unwrap();
            &&& parts.len() == items@.len()
            &&& forall|i: int|
                0 <= i < parts.len() ==> Some(#[trigger] parts[i]) == literal_of(items@[i])
            &&& literal_of(Value::List(items)) == Some(seq!['['] + join(parts) + seq![']'])
        }),
{
    lemma_scalar_items(items@, items@.len());
    lemma_items_len(items@, items@.len());
}

/// Every case of each enumerated type has a non-empty literal, and distinct cases
/// of one type have distinct literals.
pub proof fn lemma_enum_literals_distinct(
    l1: Lifetime,
    l2: Lifetime,
    m1: MemoryUnit,
    m2: MemoryUnit,
    t1: TimeUnit,
    t2: TimeUnit,
    h1: HistogramType,
    h2: HistogramType,
)
    ensures
        literal_of(Value::Lifetime(l1)) is Some && literal_of(Value::Lifetime(l1)).unwrap().len() > 1,
        literal_of(Value::MemoryUnit(m1)) is Some && literal_of(Value::MemoryUnit(m1)).unwrap().len() > 1,
        literal_of(Value::TimeUnit(t1)) is Some && literal_of(Value::TimeUnit(t1)).unwrap().len() > 1,
        literal_of(Value::HistogramType(h1)) is Some && literal_of(Value::HistogramType(h1)).unwrap().len() > 1,
        l1 != l2 ==> literal_of(Value::Lifetime(l1)) != literal_of(Value::Lifetime(l2)),
        m1 != m2 ==> literal_of(Value::MemoryUnit(m1)) != literal_of(Value::MemoryUnit(m2)),
        t1 != t2 ==> literal_of(Value::TimeUnit(t1)) != literal_of(Value::TimeUnit(t2)),
        h1 != h2 ==> literal_of(Value::HistogramType(h1)) != literal_of(Value::HistogramType(h2)),
{
    assert(enum_ref(l1.name_spec()).skip(1) =~= l1.name_spec());
    assert(enum_ref(l2.name_spec()).skip(1) =~= l2.name_spec());
    assert(enum_ref(m1.name_spec()).skip(1) =~= m1.name_spec());
    assert(enum_ref(m2.name_spec()).skip(1) =~= m2.name_spec());
    assert(enum_ref(t1.name_spec()).skip(1) =~= t1.name_spec());
    assert(enum_ref(t2.name_spec()).skip(1) =~= t2.name_spec());
    assert(enum_ref(h1.name_spec()).skip(1) =~= h1.name_spec());
    assert(enum_ref(h2.name_spec()).skip(1) =~= h2.name_spec());
    reveal_strlit("ping");
    reveal_strlit("application");
    reveal_strlit("user");
    reveal_strlit("byte");
    reveal_strlit("kilobyte");
    reveal_strlit("megabyte");
    reveal_strlit("gigabyte");
    reveal_strlit("millisecond");
    reveal_strlit("second");
    reveal_strlit("minute");
    reveal_strlit("hour");
    reveal_strlit("day");
    reveal_strlit("linear");
    reveal_strlit("exponential");
    if l1 != l2 && l1.name_spec() == l2.name_spec() {
        assert(l1.name_spec()[0] == l2.name_spec()[0]);
    }
    if m1 != m2 && m1.name_spec() == m2.name_spec() {
        assert(m1.name_spec()[0] == m2.name_spec()[0]);
    }
    if t1 != t2 && t1.name_spec() == t2.name_spec() {
        assert(t1.name_spec()[0] == t2.name_spec()[0]);
        assert(t1.name_spec()[1] == t2.name_spec()[1]);
    }
    if h1 != h2 && h1.name_spec() == h2.name_spec() {
        assert(h1.name_spec()[0] == h2.name_spec()[0]);
    }
}

/// A mapping or a null has no literal: the serializer refuses it.
pub proof fn lemma_unsupported_shapes(entries: Vec<(String, Value)>)
    ensures
        literal_of(Value::Null) is None,
        literal_of(Value::Mapping(entries)) is None,
{
}

} // verus!
