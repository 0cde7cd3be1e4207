//! JSON text: quoting strings, reading records.

use std::collections::BTreeMap;

use serde_json::value::RawValue;
use vstd::prelude::*;

use crate::text::{chars_of, hex_digit, opt_text, same_text};

verus! {

/// How a character is written inside a JSON string: quotation mark, backslash and control
/// characters are escaped, everything else stands for itself.
pub open spec fn json_escape(c: char) -> Seq<char> {
    if c == '"' {
        seq!['\\', '"']
    } else if c == '\\' {
        seq!['\\', '\\']
    } else if c as u32 == 8 {
        seq!['\\', 'b']
    } else if c as u32 == 9 {
        seq!['\\', 't']
    } else if c as u32 == 10 {
        seq!['\\', 'n']
    } else if c as u32 == 12 {
        seq!['\\', 'f']
    } else if c as u32 == 13 {
        seq!['\\', 'r']
    } else if (c as u32) < 32 {
        seq!['\\', 'u', '0', '0', hex_digit(c as nat / 16), hex_digit(c as nat % 16)]
    } else {
        seq![c]
    }
}

/// The characters of a JSON string between its quotation marks.
pub open spec fn json_escaped(s: Seq<char>) -> Seq<char>
    decreases s.len(),
{
    if s.len() == 0 {
        Seq::empty()
    } else {
        json_escaped(s.drop_last()) + json_escape(s.last())
    }
}

/// A JSON string.
pub open spec fn json_quoted(s: Seq<char>) -> Seq<char> {
    seq!['"'] + json_escaped(s) + seq!['"']
}

/// `serde_json::to_string` on a string slice: the text in quotation marks, escaped. It cannot fail
/// on a string.
#[verifier::external_body]
pub(crate) fn json_text(s: &str) -> (r: String)
    ensures
        r@ == json_quoted(s@),
{
    serde_json::to_string(s).unwrap_or_default()
}

/// Appends a JSON string.
pub(crate) fn append_json_text(out: &mut String, s: &str)
    ensures
        final(out)@ == old(out)@ + json_quoted(s@),
{
    let quoted = json_text(s);
    out.append(quoted.as_str());
}

/// A truth value in JSON.
pub open spec fn json_bool(b: bool) -> Seq<char> {
    if b {
        "true"@
    } else {
        "false"@
    }
}

/// Appends a truth value.
pub(crate) fn append_json_bool(out: &mut String, b: bool)
    ensures
        final(out)@ == old(out)@ + json_bool(b),
{
    if b {
        out.append("true");
    } else {
        out.append("false");
    }
}

/// The texts of some strings.
pub open spec fn texts(v: Seq<String>) -> Seq<Seq<char>> {
    Seq::new(v.len(), |i: int| v[i]@)
}

/// The elements of a JSON array of strings.
pub open spec fn json_items(v: Seq<Seq<char>>) -> Seq<char>
    decreases v.len(),
{
    if v.len() == 0 {
        Seq::empty()
    } else if v.len() == 1 {
        json_quoted(v[0])
    } else {
        json_items(v.drop_last()) + ","@ + json_quoted(v.last())
    }
}

/// Appends the elements of a JSON array of strings.
pub(crate) fn append_json_items(out: &mut String, items: &Vec<String>)
    ensures
        final(out)@ == old(out)@ + json_items(texts(items@)),
{
    let ghost all = texts(items@);
    let ghost start = out@;
    let mut i: usize = 0;
    assert(all.take(0) =~= Seq::<Seq<char>>::empty());
    while i < items.len()
        invariant
            i <= items@.len(),
            all == texts(items@),
            out@ =~= start + json_items(all.take(i as int)),
        decreases items@.len() - i,
    {
        if i > 0 {
            out.append(",");
        }
        append_json_text(out, items[i].as_str());
        assert(all.take(i + 1).drop_last() =~= all.take(i as int));
        i = i + 1;
    }
    assert(all.take(i as int) =~= all);
}

/// The members of the JSON object that a text writes down, each as the text of its value; none if
/// the text is no JSON object.
pub uninterp spec fn json_object(text: Seq<char>) -> Option<Map<Seq<char>, Seq<char>>>;

/// The elements of the JSON array that a text writes down, each as its text; none if the text is no
/// JSON array.
pub uninterp spec fn json_list(text: Seq<char>) -> Option<Seq<Seq<char>>>;

/// The string that a text writes down in JSON; none if the text is no JSON string.
pub uninterp spec fn json_string(text: Seq<char>) -> Option<Seq<char>>;

/// The string that a text writes down in JSON, or nothing for `null`; none if the text is neither.
pub uninterp spec fn json_optional_string(text: Seq<char>) -> Option<Option<Seq<char>>>;

/// Named values, where a later one takes the place of an earlier one with the same name.
pub open spec fn named(entries: Seq<(String, String)>) -> Map<Seq<char>, Seq<char>>
    decreases entries.len(),
{
    if entries.len() == 0 {
        Map::empty()
    } else {
        named(entries.drop_last()).insert(entries.last().0@, entries.last().1@)
    }
}

/// `serde_json::from_str` into a map from names to `serde_json::value::RawValue`: the members of a
/// JSON object. Of members with the same name the last counts.
///
/// Claimed: whether the text is a JSON object, and which members it then has, depends on the text
/// alone. Which texts are JSON objects is left unsaid.
#[verifier::external_body]
fn object_members(text: &str) -> (r: Option<Vec<(String, String)>>)
    ensures
        match r {
            Some(entries) => json_object(text@) == Some(named(entries@)),
            None => json_object(text@) is None,
        },
{
    let members: Option<BTreeMap<String, Box<RawValue>>> = serde_json::from_str(text).ok();
    members.map(|m| m.into_iter().map(|(k, v)| (k, v.get().to_string())).collect())
}

/// `serde_json::from_str` into a vector of `serde_json::value::RawValue`: the elements of a JSON
/// array.
///
/// Claimed: whether the text is a JSON array, and which elements it then has, depends on the text
/// alone. Which texts are JSON arrays is left unsaid.
#[verifier::external_body]
fn list_items(text: &str) -> (r: Option<Vec<String>>)
    ensures
        match r {
            Some(items) => json_list(text@) == Some(texts(items@)),
            None => json_list(text@) is None,
        },
{
    let items: Option<Vec<Box<RawValue>>> = serde_json::from_str(text).ok();
    items.map(|v| v.into_iter().map(|x| x.get().to_string()).collect())
}

/// `serde_json::from_str` into a `String`.
///
/// Claimed: whether the text is a JSON string, and which one, depends on the text alone. Which
/// texts are JSON strings is left unsaid.
#[verifier::external_body]
fn string_value(text: &str) -> (r: Option<String>)
    ensures
        match r {
            Some(s) => json_string(text@) == Some(s@),
            None => json_string(text@) is None,
        },
{
    serde_json::from_str(text).ok()
}

/// `serde_json::from_str` into an `Option<String>`.
///
/// Claimed: whether the text is a JSON string or `null`, and which, depends on the text alone.
/// Which texts are so is left unsaid.
#[verifier::external_body]
fn optional_string_value(text: &str) -> (r: Option<Option<String>>)
    ensures
        match r {
            Some(Some(s)) => json_optional_string(text@) == Some(Some(s@)),
            Some(None) => json_optional_string(text@) == Some(None::<Seq<char>>),
            None => json_optional_string(text@) is None,
        },
{
    serde_json::from_str(text).ok()
}

/// The place behind a JSON string that goes on at `i`: behind the first quotation mark that no
/// backslash escapes.
pub open spec fn behind_string(text: Seq<char>, i: int) -> int
    decreases text.len() - i,
{
    if i >= text.len() {
        text.len() as int
    } else if text[i] == '"' {
        i + 1
    } else if text[i] == '\\' && i + 1 < text.len() {
        behind_string(text, i + 2)
    } else {
        behind_string(text, i + 1)
    }
}

/// A JSON string ends behind its beginning, and within the text.
pub proof fn string_ends_in_text(text: Seq<char>, i: int)
    requires
        i <= text.len(),
    ensures
        i <= behind_string(text, i) <= text.len(),
    decreases text.len() - i,
{
    if i < text.len() && text[i] != '"' {
        if text[i] == '\\' && i + 1 < text.len() {
            string_ends_in_text(text, i + 2);
        } else {
            string_ends_in_text(text, i + 1);
        }
    }
}

/// The names of the members of a JSON object in the order of its text from `i` on, a name that
/// occurs twice among them twice. `depth` is how many brackets are open; a string is a name where
/// `at_name` holds, which is behind the first bracket and behind each comma of the object itself.
pub open spec fn member_names(text: Seq<char>, i: int, depth: nat, at_name: bool) -> Seq<
    Option<Seq<char>>,
>
    decreases text.len() - i,
{
    if i < 0 || i >= text.len() {
        Seq::empty()
    } else if text[i] == '"' {
        proof {
            string_ends_in_text(text, i + 1);
        }
        let end = behind_string(text, i + 1);
        let rest = member_names(text, end, depth, false);
        if at_name {
            seq![json_string(text.subrange(i, end))] + rest
        } else {
            rest
        }
    } else if text[i] == '{' || text[i] == '[' {
        member_names(text, i + 1, depth + 1, depth == 0)
    } else if text[i] == '}' || text[i] == ']' {
        member_names(
            text,
            i + 1,
            if depth > 0 {
                (depth - 1) as nat
            } else {
                0
            },
            false,
        )
    } else if text[i] == ',' {
        member_names(text, i + 1, depth, depth == 1)
    } else {
        member_names(text, i + 1, depth, at_name)
    }
}

/// The values of some optional texts.
pub open spec fn optional_texts(v: Seq<Option<String>>) -> Seq<Option<Seq<char>>> {
    Seq::new(v.len(), |i: int| opt_text(v[i]))
}

/// Skips a JSON string.
fn skip_string(text: &Vec<char>, from: usize) -> (r: usize)
    requires
        from <= text@.len(),
    ensures
        r == behind_string(text@, from as int),
        from <= r <= text@.len(),
{
    let mut i: usize = from;
    while i < text.len()
        invariant
            from <= i <= text@.len(),
            behind_string(text@, from as int) == behind_string(text@, i as int),
        decreases text@.len() - i,
    {
        if text[i] == '"' {
            return i + 1;
        }
        i = if text[i] == '\\' && i + 1 < text.len() {
            i + 2
        } else {
            i + 1
        };
    }
    i
}

/// Lists the names of the members of a JSON object.
fn list_names(text: &str) -> (r: Vec<Option<String>>)
    ensures
        optional_texts(r@) == member_names(text@, 0, 0, false),
{
    let chars = chars_of(text);
    let mut names: Vec<Option<String>> = Vec::new();
    let mut i: usize = 0;
    let mut depth: usize = 0;
    let mut at_name = false;
    assert(optional_texts(names@) =~= Seq::<Option<Seq<char>>>::empty());
    while i < chars.len()
        invariant
            chars@ == text@,
            i <= chars@.len(),
            depth <= i,
            optional_texts(names@) + member_names(text@, i as int, depth as nat, at_name)
                == member_names(text@, 0, 0, false),
        decreases chars@.len() - i,
    {
        let c = chars[i];
        if c == '"' {
            let end: usize = skip_string(&chars, i + 1);
            if at_name {
                let ghost before = optional_texts(names@);
                let ghost name = json_string(text@.subrange(i as int, end as int));
                let ghost rest = member_names(text@, end as int, depth as nat, false);
                names.push(string_value(text.substring_char(i, end)));
                assert(optional_texts(names@) =~= before.push(name));
                assert(optional_texts(names@) + rest =~= before + (seq![name] + rest));
            }
            at_name = false;
            i = end;
        } else {
            if c == '{' || c == '[' {
                at_name = depth == 0;
                depth = depth + 1;
            } else if c == '}' || c == ']' {
                at_name = false;
                if depth > 0 {
                    depth = depth - 1;
                }
            } else if c == ',' {
                at_name = depth == 1;
            }
            i = i + 1;
        }
    }
    assert(optional_texts(names@) + Seq::<Option<Seq<char>>>::empty() =~= optional_texts(names@));
    names
}

/// The name occurs more than once.
pub open spec fn repeats(names: Seq<Option<Seq<char>>>, name: Seq<char>) -> bool {
    exists|a: int, b: int|
        0 <= a < b < names.len() && #[trigger] names[a] == Some(name) && #[trigger] names[b]
            == Some(name)
}

/// The fields of a record as plain values, each as the text of its value.
pub enum FieldsModel {
    /// The names as they were written, and the values by name.
    ByName(Seq<Option<Seq<char>>>, Map<Seq<char>, Seq<char>>),
    InOrder(Seq<Seq<char>>),
}

/// The fields of a record, each as the text of its value.
#[derive(Debug, Clone)]
pub enum JsonFields {
    /// The names as they were written, and the values by name.
    ByName(Vec<Option<String>>, Vec<(String, String)>),
    InOrder(Vec<String>),
}

impl View for JsonFields {
    type V = FieldsModel;

    open spec fn view(&self) -> FieldsModel {
        match self {
            JsonFields::ByName(names, values) => FieldsModel::ByName(
                optional_texts(names@),
                named(values@),
            ),
            JsonFields::InOrder(items) => FieldsModel::InOrder(texts(items@)),
        }
    }
}

/// A record of `n` fields as JSON writes it down: an object, or an array of exactly the fields in
/// their order.
pub open spec fn record_of(text: Seq<char>, n: nat) -> Option<FieldsModel> {
    match json_object(text) {
        Some(m) => Some(FieldsModel::ByName(member_names(text, 0, 0, false), m)),
        None => match json_list(text) {
            Some(items) if items.len() == n => Some(FieldsModel::InOrder(items)),
            _ => None,
        },
    }
}

/// The field goes by a name that occurs more than once.
pub open spec fn is_repeated(fields: FieldsModel, name: Seq<char>) -> bool {
    match fields {
        FieldsModel::ByName(names, _) => repeats(names, name),
        FieldsModel::InOrder(_) => false,
    }
}

/// The text of the `i`th field, which goes by a name in an object. None if it is missing there.
pub open spec fn field_text(fields: FieldsModel, i: int, name: Seq<char>) -> Option<Seq<char>> {
    match fields {
        FieldsModel::ByName(_, values) => if values.contains_key(name) {
            Some(values[name])
        } else {
            None
        },
        FieldsModel::InOrder(items) => Some(items[i]),
    }
}

/// A field that has to be there, once, as a string.
pub open spec fn string_field(fields: FieldsModel, i: int, name: Seq<char>) -> Option<Seq<char>> {
    match field_text(fields, i, name) {
        Some(text) if !is_repeated(fields, name) => json_string(text),
        _ => None,
    }
}

/// A field that may be there, once, as a string or null.
pub open spec fn optional_string_field(
    fields: FieldsModel,
    i: int,
    name: Seq<char>,
) -> Option<Option<Seq<char>>> {
    if is_repeated(fields, name) {
        None
    } else {
        match field_text(fields, i, name) {
            Some(text) => json_optional_string(text),
            None => Some(None),
        }
    }
}

/// A field that has to be there, once, as a list: the texts of its elements.
pub open spec fn list_field(fields: FieldsModel, i: int, name: Seq<char>) -> Option<
    Seq<Seq<char>>,
> {
    match field_text(fields, i, name) {
        Some(text) if !is_repeated(fields, name) => json_list(text),
        _ => None,
    }
}

/// Reads a record of `n` fields.
pub fn read_record(text: &str, n: usize) -> (r: Option<JsonFields>)
    ensures
        match r {
            Some(fields) => {
                &&& record_of(text@, n as nat) == Some(fields@)
                &&& fields@ matches FieldsModel::InOrder(items) ==> items.len() == n
            },
            None => record_of(text@, n as nat) is None,
        },
{
    if let Some(values) = object_members(text) {
        return Some(JsonFields::ByName(list_names(text), values));
    }
    match list_items(text) {
        Some(items) if items.len() == n => Some(JsonFields::InOrder(items)),
        _ => None,
    }
}

impl JsonFields {
    /// Whether the field goes by a name that occurs more than once.
    pub fn repeated(&self, name: &str) -> (r: bool)
        ensures
            r == is_repeated(self@, name@),
    {
        let names = match self {
            JsonFields::ByName(names, _) => names,
            JsonFields::InOrder(_) => return false,
        };
        let ghost all = optional_texts(names@);
        let mut seen = false;
        let ghost mut first: int = 0;
        let mut k: usize = 0;
        while k < names.len()
            invariant
                k <= names@.len(),
                all == optional_texts(names@),
                is_repeated(self@, name@) == repeats(all, name@),
                seen ==> 0 <= first < k && all[first] == Some(name@),
                forall|a: int|
                    0 <= a < k && #[trigger] all[a] == Some(name@) ==> seen && a == first,
            decreases names@.len() - k,
        {
            assert(all[k as int] == opt_text(names@[k as int]));
            if let Some(s) = &names[k] {
                if same_text(s.as_str(), name) {
                    if seen {
                        assert(all[first] == Some(name@) && all[k as int] == Some(name@));
                        return true;
                    }
                    seen = true;
                    proof {
                        first = k as int;
                    }
                }
            }
            k = k + 1;
        }
        false
    }

    /// The text of the `i`th field, which goes by a name in an object.
    pub fn text(&self, i: usize, name: &str) -> (r: Option<&str>)
        requires
            self@ matches FieldsModel::InOrder(items) ==> i < items.len(),
        ensures
            match r {
                Some(t) => field_text(self@, i as int, name@) == Some(t@),
                None => field_text(self@, i as int, name@) is None,
            },
    {
        match self {
            JsonFields::InOrder(items) => {
                assert(texts(items@)[i as int] == items@[i as int]@);
                Some(items[i].as_str())
            },
            JsonFields::ByName(_, values) => {
                let ghost all = named(values@);
                let mut k: usize = values.len();
                assert(values@.take(k as int) =~= values@);
                while k > 0
                    invariant
                        k <= values@.len(),
                        self matches JsonFields::ByName(_, v) && v == values,
                        all == named(values@),
                        all.contains_key(name@) == named(values@.take(k as int)).contains_key(
                            name@,
                        ),
                        all.contains_key(name@) ==> all[name@] == named(
                            values@.take(k as int),
                        )[name@],
                    decreases k,
                {
                    let ghost first = values@.take(k as int);
                    assert(first.drop_last() =~= values@.take(k - 1));
                    assert(first.last() == values@[k - 1]);
                    k = k - 1;
                    if same_text(values[k].0.as_str(), name) {
                        return Some(values[k].1.as_str());
                    }
                }
                None
            },
        }
    }

    /// A field that has to be there, once, as a string.
    pub fn string(&self, i: usize, name: &str) -> (r: Option<String>)
        requires
            self@ matches FieldsModel::InOrder(items) ==> i < items.len(),
        ensures
            match r {
                Some(s) => string_field(self@, i as int, name@) == Some(s@),
                None => string_field(self@, i as int, name@) is None,
            },
    {
        match self.text(i, name) {
            Some(t) if !self.repeated(name) => string_value(t),
            _ => None,
        }
    }

    /// A field that may be there, once, as a string or null.
    pub fn optional_string(&self, i: usize, name: &str) -> (r: Option<Option<String>>)
        requires
            self@ matches FieldsModel::InOrder(items) ==> i < items.len(),
        ensures
            match r {
                Some(Some(s)) => optional_string_field(self@, i as int, name@) == Some(Some(s@)),
                Some(None) => optional_string_field(self@, i as int, name@) == Some(
                    None::<Seq<char>>,
                ),
                None => optional_string_field(self@, i as int, name@) is None,
            },
    {
        if self.repeated(name) {
            return None;
        }
        match self.text(i, name) {
            Some(t) => optional_string_value(t),
            None => Some(None),
        }
    }

    /// A field that has to be there, once, as a list: the texts of its elements.
    pub fn list(&self, i: usize, name: &str) -> (r: Option<Vec<String>>)
        requires
            self@ matches FieldsModel::InOrder(items) ==> i < items.len(),
        ensures
            match r {
                Some(items) => list_field(self@, i as int, name@) == Some(texts(items@)),
                None => list_field(self@, i as int, name@) is None,
            },
    {
        match self.text(i, name) {
            Some(t) if !self.repeated(name) => list_items(t),
            _ => None,
        }
    }
}

/// Text without quotation marks, backslashes and control characters stands between the quotation
/// marks as it is.
pub proof fn plain_text_is_quoted_as_it_is(s: Seq<char>)
    requires
        forall|i: int|
            0 <= i < s.len() ==> (#[trigger] s[i]) as u32 >= 32 && s[i] != '"' && s[i] != '\\',
    ensures
        json_quoted(s) == seq!['"'] + s + seq!['"'],
    decreases s.len(),
{
    if s.len() > 0 {
        let init = s.drop_last();
        assert forall|i: int| 0 <= i < init.len() implies (#[trigger] init[i]) as u32 >= 32
            && init[i] != '"' && init[i] != '\\' by {
            assert(init[i] == s[i]);
        }
        plain_text_is_quoted_as_it_is(init);
        let last = s[s.len() - 1];
        assert(json_escape(s.last()) =~= seq![s.last()]);
        assert(json_quoted(init).subrange(1, json_quoted(init).len() - 1) =~= json_escaped(init));
        assert((seq!['"'] + init + seq!['"']).subrange(1, init.len() as int + 1) =~= init);
        assert(json_escaped(s) =~= s);
    }
}

/// The character means nothing outside a string: it is no quotation mark, no bracket and no comma.
pub open spec fn is_flat(c: char) -> bool {
    c != '"' && c != '{' && c != '}' && c != '[' && c != ']' && c != ','
}

/// Between `i` and `j` nothing stands that means anything outside a string.
pub open spec fn flat_between(text: Seq<char>, i: int, j: int) -> bool {
    &&& 0 <= i <= j <= text.len()
    &&& forall|k: int| i <= k < j ==> is_flat(#[trigger] text[k])
}

/// A string without escapes begins at `i` and ends at `j`.
pub open spec fn string_between(text: Seq<char>, i: int, j: int) -> bool {
    &&& 0 <= i < j < text.len()
    &&& text[i] == '"'
    &&& text[j] == '"'
    &&& forall|k: int| i < k < j ==> (#[trigger] text[k]) != '"' && text[k] != '\\'
}

/// What means nothing is passed over.
proof fn flat_is_passed_over(text: Seq<char>, i: int, j: int, depth: nat, at_name: bool)
    requires
        flat_between(text, i, j),
    ensures
        member_names(text, i, depth, at_name) == member_names(text, j, depth, at_name),
    decreases j - i,
{
    if i < j {
        assert(is_flat(text[i]));
        flat_is_passed_over(text, i + 1, j, depth, at_name);
    }
}

/// A string without escapes ends at its second quotation mark.
proof fn plain_string_ends(text: Seq<char>, i: int, j: int)
    requires
        0 <= i <= j < text.len(),
        text[j] == '"',
        forall|k: int| i <= k < j ==> (#[trigger] text[k]) != '"' && text[k] != '\\',
    ensures
        behind_string(text, i) == j + 1,
    decreases j - i,
{
    if i < j {
        plain_string_ends(text, i + 1, j);
    }
}

/// A string is a name where one is due and passed over elsewhere.
proof fn string_is_read(text: Seq<char>, i: int, j: int, depth: nat, at_name: bool)
    requires
        string_between(text, i, j),
    ensures
        member_names(text, i, depth, at_name) == if at_name {
            seq![json_string(text.subrange(i, j + 1))] + member_names(text, j + 1, depth, false)
        } else {
            member_names(text, j + 1, depth, false)
        },
{
    plain_string_ends(text, i + 1, j);
}

/// The names of an object of two members are the strings before their values, in order. What stands
/// in the values is no name, were it a string in brackets of its own.
pub proof fn names_stand_before_their_values(
    text: Seq<char>,
    first_end: int,
    open: int,
    inner: int,
    inner_end: int,
    close: int,
    comma: int,
    second: int,
    second_end: int,
)
    requires
        text.len() > 0,
        text[0] == '{',
        string_between(text, 1, first_end),
        flat_between(text, first_end + 1, open),
        open < inner,
        text[open] == '{' || text[open] == '[',
        flat_between(text, open + 1, inner),
        string_between(text, inner, inner_end),
        flat_between(text, inner_end + 1, close),
        text[close] == '}' || text[close] == ']',
        flat_between(text, close + 1, comma),
        text[comma] == ',',
        flat_between(text, comma + 1, second),
        string_between(text, second, second_end),
        flat_between(text, second_end + 1, text.len() - 1),
        text.last() == '}',
    ensures
        member_names(text, 0, 0, false) == seq![
            json_string(text.subrange(1, first_end + 1)),
            json_string(text.subrange(second, second_end + 1)),
        ],
{
    let n = text.len() - 1;
    string_is_read(text, 1, first_end, 1, true);
    flat_is_passed_over(text, first_end + 1, open, 1, false);
    flat_is_passed_over(text, open + 1, inner, 2, false);
    string_is_read(text, inner, inner_end, 2, false);
    flat_is_passed_over(text, inner_end + 1, close, 2, false);
    flat_is_passed_over(text, close + 1, comma, 1, false);
    flat_is_passed_over(text, comma + 1, second, 1, true);
    string_is_read(text, second, second_end, 1, true);
    flat_is_passed_over(text, second_end + 1, n, 1, false);
    let (a, b) = (
        json_string(text.subrange(1, first_end + 1)),
        json_string(text.subrange(second, second_end + 1)),
    );
    assert(text[n] == '}');
    assert(member_names(text, n + 1, 0, false) =~= Seq::<Option<Seq<char>>>::empty());
    assert(member_names(text, n, 1, false) == member_names(text, n + 1, 0, false));
    assert(member_names(text, second, 1, true) =~= seq![b]);
    assert(member_names(text, comma, 1, false) == member_names(text, comma + 1, 1, true));
    assert(member_names(text, close, 2, false) == member_names(text, close + 1, 1, false));
    assert(member_names(text, open, 1, false) == member_names(text, open + 1, 2, false));
    assert(member_names(text, 0, 0, false) == member_names(text, 1, 1, true));
    assert(member_names(text, 1, 1, true) =~= seq![a] + seq![b]);
}

/// A field is found by its name, the last value under it counting, or by its place in an array. A
/// name counts as repeated exactly if it was written twice.
pub proof fn fields_are_found_by_name_or_place(
    f: JsonFields,
    i: usize,
    name: &str,
    r: Option<&str>,
    twice: bool,
)
    requires
        f matches JsonFields::InOrder(items) ==> i < items@.len(),
        call_ensures(JsonFields::text, (&f, i, name), r),
        call_ensures(JsonFields::repeated, (&f, name), twice),
    ensures
        f matches JsonFields::InOrder(items) ==> r is Some && r->0@ == items@[i as int]@ && !twice,
        f matches JsonFields::ByName(names, values) ==> {
            &&& r is None <==> forall|k: int|
                0 <= k < values@.len() ==> (#[trigger] values@[k]).0@ != name@
            &&& r matches Some(t) ==> exists|k: int|
                {
                    &&& 0 <= k < values@.len()
                    &&& (#[trigger] values@[k]).0@ == name@
                    &&& values@[k].1@ == t@
                    &&& forall|l: int| k < l < values@.len() ==> (#[trigger] values@[l]).0@ != name@
                }
            &&& twice <==> exists|k: int, l: int|
                0 <= k < l < names@.len() && (#[trigger] names@[k]) is Some && (
                #[trigger] names@[l]) is Some && names@[k]->0@ == name@ && names@[l]->0@ == name@
        },
{
    match f {
        JsonFields::InOrder(items) => {
            assert(texts(items@)[i as int] == items@[i as int]@);
        },
        JsonFields::ByName(names, values) => {
            named_keeps_the_last(values@, name@);
            let all = optional_texts(names@);
            if twice {
                let (k, l) = choose|k: int, l: int|
                    0 <= k < l < all.len() && #[trigger] all[k] == Some(name@) && #[trigger] all[l]
                        == Some(name@);
                assert(all[k] == opt_text(names@[k]) && all[l] == opt_text(names@[l]));
                assert(names@[k] is Some && names@[l] is Some);
            }
            if exists|k: int, l: int|
                0 <= k < l < names@.len() && (#[trigger] names@[k]) is Some && (
                #[trigger] names@[l]) is Some && names@[k]->0@ == name@ && names@[l]->0@ == name@ {
                let (k, l) = choose|k: int, l: int|
                    0 <= k < l < names@.len() && (#[trigger] names@[k]) is Some && (
                    #[trigger] names@[l]) is Some && names@[k]->0@ == name@ && names@[l]->0@
                        == name@;
                assert(all[k] == Some(name@) && all[l] == Some(name@));
            }
        },
    }
}

/// Of some named values the last one under a name counts.
proof fn named_keeps_the_last(entries: Seq<(String, String)>, name: Seq<char>)
    ensures
        named(entries).contains_key(name) <==> exists|k: int|
            0 <= k < entries.len() && (#[trigger] entries[k]).0@ == name,
        named(entries).contains_key(name) ==> exists|k: int|
            {
                &&& 0 <= k < entries.len()
                &&& (#[trigger] entries[k]).0@ == name
                &&& entries[k].1@ == named(entries)[name]
                &&& forall|l: int| k < l < entries.len() ==> (#[trigger] entries[l]).0@ != name
            },
    decreases entries.len(),
{
    if entries.len() > 0 {
        let init = entries.drop_last();
        named_keeps_the_last(init, name);
        let n = entries.len() - 1;
        assert(forall|k: int| 0 <= k < n ==> #[trigger] init[k] == entries[k]);
        if entries[n].0@ == name {
            assert(named(entries)[name] == entries[n].1@);
        } else if named(init).contains_key(name) {
            let k = choose|k: int|
                {
                    &&& 0 <= k < init.len()
                    &&& (#[trigger] init[k]).0@ == name
                    &&& init[k].1@ == named(init)[name]
                    &&& forall|l: int| k < l < init.len() ==> (#[trigger] init[l]).0@ != name
                };
            assert(entries[k].0@ == name && entries[k].1@ == named(entries)[name]);
            assert forall|l: int| k < l < entries.len() implies (#[trigger] entries[l]).0@
                != name by {
                if l < n {
                    assert(init[l].0@ != name);
                }
            }
        } else {
            assert forall|k: int| 0 <= k < entries.len() implies (#[trigger] entries[k]).0@
                != name by {
                if k < n {
                    assert(init[k].0@ != name);
                }
            }
        }
    }
}

/// A field that was written twice is none, and neither is a string or a list that is missing. What
/// is there once is read by itself. A string that may be missing is then empty.
pub proof fn fields_are_read_once(
    f: JsonFields,
    i: usize,
    name: &str,
    text: Option<&str>,
    twice: bool,
    string: Option<String>,
    optional: Option<Option<String>>,
    list: Option<Vec<String>>,
)
    requires
        f matches JsonFields::InOrder(items) ==> i < items@.len(),
        call_ensures(JsonFields::text, (&f, i, name), text),
        call_ensures(JsonFields::repeated, (&f, name), twice),
        call_ensures(JsonFields::string, (&f, i, name), string),
        call_ensures(JsonFields::optional_string, (&f, i, name), optional),
        call_ensures(JsonFields::list, (&f, i, name), list),
    ensures
        twice ==> string is None && optional is None && list is None,
        text is None ==> string is None && list is None,
        text is None && !twice ==> optional is Some && optional->0 is None,
        text matches Some(t) ==> !twice ==> {
            &&& opt_text(string) == json_string(t@)
            &&& list is Some <==> json_list(t@) is Some
            &&& list matches Some(items) ==> json_list(t@) == Some(texts(items@))
            &&& optional is Some <==> json_optional_string(t@) is Some
            &&& optional matches Some(o) ==> json_optional_string(t@) == Some(opt_text(o))
        },
{
}

/// A record is read by name exactly if its text is an object, and else in order exactly if it is an
/// array of as many elements as there are fields.
pub proof fn records_are_objects_or_arrays(text: &str, n: usize, r: Option<JsonFields>)
    requires
        call_ensures(read_record, (text, n), r),
    ensures
        r is Some && r->0 is ByName <==> json_object(text@) is Some,
        r is Some && r->0 is InOrder <==> json_object(text@) is None && json_list(text@) is Some
            && json_list(text@)->0.len() == n,
        r matches Some(JsonFields::InOrder(items)) ==> texts(items@) == json_list(text@)->0,
        r matches Some(JsonFields::ByName(names, values)) ==> named(values@) == json_object(
            text@,
        )->0 && optional_texts(names@) == member_names(text@, 0, 0, false),
{
}

/// A quotation mark behind a backslash does not end a string, and neither does a character that is
/// neither; a quotation mark by itself does.
pub proof fn strings_end_at_a_bare_quotation_mark(text: Seq<char>, i: int)
    requires
        0 <= i < text.len(),
    ensures
        text[i] == '"' ==> behind_string(text, i) == i + 1,
        text[i] == '\\' && i + 2 < text.len() && text[i + 2] == '"' ==> behind_string(text, i) == i
            + 3,
        text[i] != '"' && text[i] != '\\' && i + 1 < text.len() && text[i + 1] == '"'
            ==> behind_string(text, i) == i + 2,
        i <= behind_string(text, i) <= text.len(),
{
    string_ends_in_text(text, i);
    reveal_with_fuel(behind_string, 2);
}

} // verus!
