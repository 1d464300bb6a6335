//! JSON text: what each value serializes to, and writers that build it.
use vstd::prelude::*;

verus! {

/// The lower-case hexadecimal digit for `n` in `0..16`.
pub open spec fn hex_digit(n: int) -> char {
    seq!['0', '1', '2', '3', '4', '5', '6', '7', '8', '9', 'a', 'b', 'c', 'd', 'e', 'f'][n]
}

/// How one character stands inside a JSON string literal.
pub open spec fn escaped_char(c: char) -> Seq<char> {
    if c == '"' {
        seq!['\\', '"']
    } else if c == '\\' {
        seq!['\\', '\\']
    } else if c == '\u{8}' {
        seq!['\\', 'b']
    } else if c == '\t' {
        seq!['\\', 't']
    } else if c == '\n' {
        seq!['\\', 'n']
    } else if c == '\u{c}' {
        seq!['\\', 'f']
    } else if c == '\r' {
        seq!['\\', 'r']
    } else if (c as u32) < 0x20 {
        seq!['\\', 'u', '0', '0', hex_digit((c as u32) as int / 16), hex_digit((c as u32) as int % 16)]
    } else {
        seq![c]
    }
}

/// The characters of `s`, each escaped.
pub open spec fn escaped(s: Seq<char>) -> Seq<char>
    decreases s.len(),
{
    if s.len() == 0 {
        Seq::empty()
    } else {
        escaped(s.drop_last()) + escaped_char(s.last())
    }
}

/// The JSON string literal holding `s`.
pub open spec fn quoted(s: Seq<char>) -> Seq<char> {
    seq!['"'] + escaped(s) + seq!['"']
}

/// The decimal digit for `n` in `0..10`.
pub open spec fn decimal_digit(n: int) -> char {
    seq!['0', '1', '2', '3', '4', '5', '6', '7', '8', '9'][n]
}

/// The decimal digits of `n`, without leading zeros.
pub open spec fn nat_text(n: nat) -> Seq<char>
    decreases n,
{
    if n < 10 {
        seq![decimal_digit(n as int)]
    } else {
        nat_text(n / 10) + seq![decimal_digit((n % 10) as int)]
    }
}

/// The decimal form of `i`, with a leading `-` when it is negative.
pub open spec fn int_text(i: int) -> Seq<char> {
    if i < 0 {
        seq!['-'] + nat_text((-i) as nat)
    } else {
        nat_text(i as nat)
    }
}

/// The parts joined by commas.
pub open spec fn comma_joined(parts: Seq<Seq<char>>) -> Seq<char>
    decreases parts.len(),
{
    if parts.len() == 0 {
        Seq::empty()
    } else if parts.len() == 1 {
        parts[0]
    } else {
        comma_joined(parts.drop_last()) + seq![','] + parts.last()
    }
}

/// A JSON array whose elements have the given texts, in order.
pub open spec fn array_text(elements: Seq<Seq<char>>) -> Seq<char> {
    seq!['['] + comma_joined(elements) + seq![']']
}

/// One member of a JSON object: a key and the text of its value.
pub open spec fn member_text(member: (Seq<char>, Seq<char>)) -> Seq<char> {
    quoted(member.0) + seq![':'] + member.1
}

/// A JSON object with the given members, in order.
pub open spec fn object_text(members: Seq<(Seq<char>, Seq<char>)>) -> Seq<char> {
    seq!['{'] + comma_joined(members.map_values(|m: (Seq<char>, Seq<char>)| member_text(m))) + seq![
        '}',
    ]
}

/// The keys of an object's members, in order.
pub open spec fn keys_of(members: Seq<(Seq<char>, Seq<char>)>) -> Seq<Seq<char>> {
    members.map_values(|m: (Seq<char>, Seq<char>)| m.0)
}

/// A value that serializes to JSON text.
pub trait JsonSerialize {
    /// The JSON text of this value.
    spec fn json_text(&self) -> Seq<char>;

    /// Serializes this value.
    fn to_json(&self) -> (r: String)
        ensures
            r@ == self.json_text(),
    ;
}

/// The member `key` when `value` is present, and nothing when it is absent.
pub open spec fn optional_member<T: JsonSerialize>(key: Seq<char>, value: Option<T>) -> Seq<
    (Seq<char>, Seq<char>),
> {
    match value {
        Some(v) => seq![(key, v.json_text())],
        None => Seq::empty(),
    }
}

/// Relies on serde_json::to_string for a `str`: a JSON string literal, escaped by
/// serde_json's table (quote, backslash and control characters); it cannot fail on a `str`.
#[verifier::external_body]
pub(crate) fn json_string(s: &str) -> (r: String)
    ensures
        r@ == quoted(s@),
{
    match serde_json::to_string(s) {
        Ok(text) => text,
        Err(_) => String::new(),
    }
}

/// Relies on serde_json::to_string for an `i64`: its decimal form, written by itoa; it
/// cannot fail on an integer.
#[verifier::external_body]
pub(crate) fn json_i64(v: i64) -> (r: String)
    ensures
        r@ == int_text(v as int),
{
    match serde_json::to_string(&v) {
        Ok(text) => text,
        Err(_) => String::new(),
    }
}

/// Relies on serde_json::to_string for a `u64`: its decimal form, written by itoa; it
/// cannot fail on an integer.
#[verifier::external_body]
pub(crate) fn json_u64(v: u64) -> (r: String)
    ensures
        r@ == int_text(v as int),
{
    match serde_json::to_string(&v) {
        Ok(text) => text,
        Err(_) => String::new(),
    }
}

/// Builds a JSON array element by element.
pub struct ArrayWriter {
    buf: String,
    empty: bool,
    elements: Ghost<Seq<Seq<char>>>,
}

impl ArrayWriter {
    /// The texts of the elements written so far.
    pub closed spec fn elements(&self) -> Seq<Seq<char>> {
        self.elements@
    }

    pub closed spec fn wf(&self) -> bool {
        &&& self.buf@ == seq!['['] + comma_joined(self.elements@)
        &&& self.empty == (self.elements@.len() == 0)
    }

    pub fn new() -> (r: ArrayWriter)
        ensures
            r.wf(),
            r.elements() == Seq::<Seq<char>>::empty(),
    {
        let mut buf = String::new();
        buf.append("[");
        proof {
            reveal_strlit("[");
            assert(buf@ =~= seq!['['] + comma_joined(Seq::<Seq<char>>::empty()));
        }
        ArrayWriter { buf, empty: true, elements: Ghost(Seq::empty()) }
    }

    /// Appends an element, given its text.
    pub fn element(&mut self, text: &str)
        requires
            old(self).wf(),
        ensures
            final(self).wf(),
            final(self).elements() == old(self).elements().push(text@),
    {
        let ghost before = self.elements@;
        let ghost after = before.push(text@);
        if !self.empty {
            self.buf.append(",");
            proof {
                reveal_strlit(",");
            }
        }
        self.buf.append(text);
        proof {
            assert(after.drop_last() =~= before);
            if before.len() == 0 {
                assert(comma_joined(after) == text@);
            }
        }
        self.elements = Ghost(after);
        self.empty = false;
        proof {
            assert(self.buf@ =~= seq!['['] + comma_joined(after));
        }
    }

    /// The array written.
    pub fn finish(self) -> (r: String)
        requires
            self.wf(),
        ensures
            r@ == array_text(self.elements()),
    {
        let mut buf = self.buf;
        buf.append("]");
        proof {
            reveal_strlit("]");
            assert(buf@ =~= array_text(self.elements@));
        }
        buf
    }
}

/// Builds a JSON object member by member.
pub struct ObjectWriter {
    buf: String,
    empty: bool,
    members: Ghost<Seq<(Seq<char>, Seq<char>)>>,
}

impl ObjectWriter {
    /// The members written so far.
    pub closed spec fn members(&self) -> Seq<(Seq<char>, Seq<char>)> {
        self.members@
    }

    pub closed spec fn wf(&self) -> bool {
        &&& self.buf@ == seq!['{'] + comma_joined(
            self.members@.map_values(|m: (Seq<char>, Seq<char>)| member_text(m)),
        )
        &&& self.empty == (self.members@.len() == 0)
    }

    pub fn new() -> (r: ObjectWriter)
        ensures
            r.wf(),
            r.members() == Seq::<(Seq<char>, Seq<char>)>::empty(),
    {
        let mut buf = String::new();
        buf.append("{");
        let ghost members = Seq::<(Seq<char>, Seq<char>)>::empty();
        proof {
            reveal_strlit("{");
            assert(members.map_values(|m: (Seq<char>, Seq<char>)| member_text(m)) =~= Seq::<
                Seq<char>,
            >::empty());
            assert(buf@ =~= seq!['{'] + comma_joined(
                members.map_values(|m: (Seq<char>, Seq<char>)| member_text(m)),
            ));
        }
        ObjectWriter { buf, empty: true, members: Ghost(members) }
    }

    /// Appends the member `key`, given the text of its value.
    pub fn member(&mut self, key: &str, value: &str)
        requires
            old(self).wf(),
        ensures
            final(self).wf(),
            final(self).members() == old(self).members() + seq![(key@, value@)],
    {
        let ghost before = self.members@;
        let ghost after = before + seq![(key@, value@)];
        let ghost texts_before = before.map_values(|m: (Seq<char>, Seq<char>)| member_text(m));
        let ghost texts_after = after.map_values(|m: (Seq<char>, Seq<char>)| member_text(m));
        if !self.empty {
            self.buf.append(",");
            proof {
                reveal_strlit(",");
            }
        }
        let quoted_key = json_string(key);
        self.buf.append(quoted_key.as_str());
        self.buf.append(":");
        self.buf.append(value);
        proof {
            reveal_strlit(":");
            assert(texts_after.drop_last() =~= texts_before);
            assert(texts_after.last() == member_text((key@, value@)));
            if before.len() == 0 {
                assert(comma_joined(texts_after) == texts_after[0]);
            }
        }
        self.members = Ghost(after);
        self.empty = false;
        proof {
            assert(self.buf@ =~= seq!['{'] + comma_joined(texts_after));
        }
    }

    /// Appends the member `key` when `value` is present.
    pub fn optional<T: JsonSerialize>(&mut self, key: &str, value: &Option<T>)
        requires
            old(self).wf(),
        ensures
            final(self).wf(),
            final(self).members() == old(self).members() + optional_member(key@, *value),
    {
        match value {
            Some(v) => {
                let text = v.to_json();
                self.member(key, text.as_str());
            },
            None => {
                proof {
                    assert(self.members@ + optional_member(key@, *value) =~= self.members@);
                }
            },
        }
    }

    /// The object written.
    pub fn finish(self) -> (r: String)
        requires
            self.wf(),
        ensures
            r@ == object_text(self.members()),
    {
        let mut buf = self.buf;
        buf.append("}");
        proof {
            reveal_strlit("}");
            assert(buf@ =~= object_text(self.members@));
        }
        buf
    }
}

impl JsonSerialize for String {
    open spec fn json_text(&self) -> Seq<char> {
        quoted(self@)
    }

    fn to_json(&self) -> (r: String) {
        let r = json_string(self.as_str());
        assert(self.json_text() == quoted(self@));
        r
    }
}

impl JsonSerialize for bool {
    open spec fn json_text(&self) -> Seq<char> {
        if *self {
            "true"@
        } else {
            "false"@
        }
    }

    fn to_json(&self) -> (r: String) {
        if *self {
            String::from_str("true")
        } else {
            String::from_str("false")
        }
    }
}

impl JsonSerialize for i32 {
    open spec fn json_text(&self) -> Seq<char> {
        int_text(*self as int)
    }

    fn to_json(&self) -> (r: String) {
        let r = json_i64(*self as i64);
        assert(self.json_text() == int_text(*self as int));
        r
    }
}

impl JsonSerialize for i64 {
    open spec fn json_text(&self) -> Seq<char> {
        int_text(*self as int)
    }

    fn to_json(&self) -> (r: String) {
        let r = json_i64(*self);
        assert(self.json_text() == int_text(*self as int));
        r
    }
}

impl JsonSerialize for u64 {
    open spec fn json_text(&self) -> Seq<char> {
        int_text(*self as int)
    }

    fn to_json(&self) -> (r: String) {
        let r = json_u64(*self);
        assert(self.json_text() == int_text(*self as int));
        r
    }
}

impl JsonSerialize for usize {
    open spec fn json_text(&self) -> Seq<char> {
        int_text(*self as int)
    }

    fn to_json(&self) -> (r: String) {
        let r = json_u64(*self as u64);
        assert(self.json_text() == int_text(*self as int));
        r
    }
}

/// The texts of the elements of `v`, in order.
pub open spec fn element_texts<T: JsonSerialize>(v: Seq<T>) -> Seq<Seq<char>> {
    v.map_values(|x: T| x.json_text())
}

impl<T: JsonSerialize> JsonSerialize for Vec<T> {
    open spec fn json_text(&self) -> Seq<char> {
        array_text(element_texts(self@))
    }

    fn to_json(&self) -> (r: String) {
        let mut w = ArrayWriter::new();
        let mut i: usize = 0;
        while i < self.len()
            invariant
                i <= self@.len(),
                w.wf(),
                w.elements() == element_texts(self@.subrange(0, i as int)),
            decreases self@.len() - i,
        {
            let text = self[i].to_json();
            w.element(text.as_str());
            proof {
                assert(element_texts(self@.subrange(0, i + 1)) =~= element_texts(
                    self@.subrange(0, i as int),
                ).push(text@));
            }
            i = i + 1;
        }
        proof {
            assert(self@.subrange(0, i as int) =~= self@);
        }
        w.finish()
    }
}

/// Serializing a value twice gives the same text both times.
pub proof fn lemma_serialization_repeatable<T: JsonSerialize>(v: T, first: Seq<char>, second: Seq<char>)
    requires
        first == v.json_text(),
        second == v.json_text(),
    ensures
        first == second,
{
}

} // verus!
