use crate::error::{path_encoding_error, ControllerError};
use vstd::prelude::*;

verus! {

/// What one character of a unit name becomes inside an object path: the
/// three characters `.`, `-` and `:` turn into a fixed code of three
/// characters, every other character stays as it is.
pub open spec fn escape_char(c: char) -> Seq<char> {
    if c == '.' {
        seq!['_', '2', 'e']
    } else if c == '-' {
        seq!['_', '2', 'd']
    } else if c == ':' {
        seq!['_', '3', 'a']
    } else {
        seq![c]
    }
}

/// A unit name with each of its characters escaped, in order.
pub open spec fn escape(name: Seq<char>) -> Seq<char>
    decreases name.len(),
{
    if name.len() == 0 {
        Seq::empty()
    } else {
        escape(name.drop_last()) + escape_char(name.last())
    }
}

/// The object path under which every unit lives.
pub open spec fn unit_root() -> Seq<char> {
    "/org/freedesktop/systemd1/unit/"@
}

/// The object path of the unit with the given name.
pub open spec fn unit_path(name: Seq<char>) -> Seq<char> {
    unit_root() + escape(name)
}

/// `String::push` appends one character to the end of the string.
pub assume_specification[ String::push ](s: &mut String, ch: char)
    ensures
        final(s)@ == old(s)@.push(ch),
;

/// Maps a service name to the object path of its unit.
pub fn service_to_unit_path(service_name: &str) -> (path: String)
    ensures
        path@ == unit_path(service_name@),
{
    broadcast use vstd::string::group_string_axioms;

    let mut path = String::from_str("/org/freedesktop/systemd1/unit/");
    let chars = service_name.chars();
    for c in it: chars
        invariant
            it.seq() == service_name@,
            path@ == unit_root() + escape(service_name@.take(it.index())),
    {
        proof {
            reveal_strlit("_2e");
            reveal_strlit("_2d");
            reveal_strlit("_3a");
            let seen = service_name@.take(it.index());
            lemma_escape_push(seen, c);
            assert(seen.push(c) == service_name@.take(it.index() + 1));
        }
        if c == '.' {
            path.append("_2e");
        } else if c == '-' {
            path.append("_2d");
        } else if c == ':' {
            path.append("_3a");
        } else {
            path.push(c);
        }
    }
    proof {
        assert(service_name@.take(service_name@.len() as int) == service_name@);
    }
    path
}

/// Whether a character is one of the three that are escaped.
pub open spec fn is_special(c: char) -> bool {
    c == '.' || c == '-' || c == ':'
}

/// Whether one of the three codes `_2e`, `_2d` and `_3a` stands in the name
/// at the given index.
pub open spec fn code_at(name: Seq<char>, i: int) -> bool {
    &&& 0 <= i
    &&& i + 3 <= name.len()
    &&& name[i] == '_'
    &&& ((name[i + 1] == '2' && (name[i + 2] == 'e' || name[i + 2] == 'd')) || (name[i + 1] == '3'
        && name[i + 2] == 'a'))
}

/// Whether a name holds none of the three codes. Such a name can be told
/// from its escaped form; a name that holds `_2e` cannot, because the name
/// with `.` in that place has the same escaped form.
pub open spec fn holds_no_code(name: Seq<char>) -> bool {
    forall|i: int| !code_at(name, i)
}

/// Escaping one more character adds what that character becomes.
pub proof fn lemma_escape_push(name: Seq<char>, c: char)
    ensures
        escape(name.push(c)) == escape(name) + escape_char(c),
{
    assert(name.push(c).drop_last() == name);
}

/// Escaping goes through a name piece by piece.
pub proof fn lemma_escape_concat(front: Seq<char>, back: Seq<char>)
    ensures
        escape(front + back) == escape(front) + escape(back),
    decreases back.len(),
{
    if back.len() == 0 {
        assert(front + back == front);
        assert(escape(front) + escape(back) == escape(front));
    } else {
        lemma_escape_concat(front, back.drop_last());
        assert((front + back).drop_last() == front + back.drop_last());
        assert(escape(front) + (escape(back.drop_last()) + escape_char(back.last())) == (escape(
            front,
        ) + escape(back.drop_last())) + escape_char(back.last()));
    }
}

/// No escaped name holds one of the three special characters.
pub proof fn lemma_escaped_is_plain(name: Seq<char>)
    ensures
        forall|i: int| 0 <= i < escape(name).len() ==> !is_special(#[trigger] escape(name)[i]),
    decreases name.len(),
{
    if name.len() > 0 {
        lemma_escaped_is_plain(name.drop_last());
        let front = escape(name.drop_last());
        let added = escape_char(name.last());
        assert forall|i: int| 0 <= i < escape(name).len() implies !is_special(
            #[trigger] escape(name)[i],
        ) by {
            if i < front.len() {
                assert(escape(name)[i] == front[i]);
            } else {
                assert(escape(name)[i] == added[i - front.len()]);
            }
        }
    }
}

/// A name without special characters is its own escaped form: its object
/// path is the root followed by the name as it stands.
pub proof fn lemma_plain_name_unchanged(name: Seq<char>)
    requires
        forall|i: int| 0 <= i < name.len() ==> !is_special(#[trigger] name[i]),
    ensures
        escape(name) == name,
        unit_path(name) == unit_root() + name,
    decreases name.len(),
{
    if name.len() > 0 {
        lemma_plain_name_unchanged(name.drop_last());
        assert(escape_char(name.last()) == seq![name.last()]);
        assert(name.drop_last() + seq![name.last()] == name);
    }
}

/// Escaping twice gives what escaping once gives.
pub proof fn lemma_escape_idempotent(name: Seq<char>)
    ensures
        escape(escape(name)) == escape(name),
{
    lemma_escaped_is_plain(name);
    lemma_plain_name_unchanged(escape(name));
}

/// A name that holds a code shares its object path with the name that
/// holds the special character in the code's place: such names cannot be
/// told apart by their paths.
pub proof fn lemma_code_shares_path(front: Seq<char>, special: char, back: Seq<char>)
    requires
        is_special(special),
    ensures
        unit_path(front + escape_char(special) + back) == unit_path(front + seq![special] + back),
{
    let code = escape_char(special);
    lemma_escape_concat(front + code, back);
    lemma_escape_concat(front, code);
    lemma_escape_concat(front + seq![special], back);
    lemma_escape_concat(front, seq![special]);
    lemma_escape_push(Seq::empty(), special);
    assert(Seq::<char>::empty().push(special) == seq![special]);
    assert(Seq::<char>::empty() + code == code);
    assert(escape(code) == code) by {
        assert forall|i: int| 0 <= i < code.len() implies !is_special(#[trigger] code[i]) by {}
        lemma_plain_name_unchanged(code);
    }
}

/// Whether a text ends in one of the three codes.
spec fn ends_in_code(text: Seq<char>) -> bool {
    code_at(text, text.len() - 3)
}

/// The character that the code at the end of a text stands for.
spec fn coded_char(text: Seq<char>) -> char {
    if text.last() == 'e' {
        '.'
    } else if text.last() == 'd' {
        '-'
    } else {
        ':'
    }
}

/// Reads an escaped name back, from its end: a code becomes its character,
/// any other character stays.
spec fn unescape(text: Seq<char>) -> Seq<char>
    decreases text.len(),
{
    if text.len() == 0 {
        Seq::empty()
    } else if ends_in_code(text) {
        unescape(text.take(text.len() - 3)).push(coded_char(text))
    } else {
        unescape(text.drop_last()).push(text.last())
    }
}

/// Where an escaped name ends in `_` and a digit, the name itself ends so.
proof fn lemma_escaped_tail(name: Seq<char>, digit: char)
    requires
        digit == '2' || digit == '3',
        escape(name).len() >= 2,
        escape(name)[escape(name).len() - 2] == '_',
        escape(name).last() == digit,
    ensures
        name.len() >= 2,
        name[name.len() - 2] == '_',
        name.last() == digit,
{
    let front = name.drop_last();
    assert(escape(name) == escape(front) + escape_char(name.last()));
    assert(!is_special(name.last()));
    assert(escape(front).len() >= 1 && escape(front).last() == '_');
    let head = front.drop_last();
    assert(escape(front) == escape(head) + escape_char(front.last()));
    assert(!is_special(front.last()));
}

/// A name that holds no code is read back from its escaped form.
proof fn lemma_unescape_escape(name: Seq<char>)
    requires
        holds_no_code(name),
    ensures
        unescape(escape(name)) == name,
    decreases name.len(),
{
    if name.len() > 0 {
        let front = name.drop_last();
        let last = name.last();
        let text = escape(name);
        assert(holds_no_code(front)) by {
            assert forall|i: int| !code_at(front, i) by {
                assert(!code_at(name, i));
            }
        }
        lemma_unescape_escape(front);
        assert(text == escape(front) + escape_char(last));
        if is_special(last) {
            assert(ends_in_code(text));
            assert(text.take(text.len() - 3) == escape(front));
            assert(coded_char(text) == last);
            assert(front.push(last) == name);
        } else {
            if ends_in_code(text) {
                let digit = text[text.len() - 2];
                assert(escape(front).len() >= 2);
                assert(escape(front).last() == digit);
                assert(escape(front)[escape(front).len() - 2] == '_');
                lemma_escaped_tail(front, digit);
                assert(code_at(name, name.len() - 3));
            }
            assert(text.drop_last() == escape(front));
            assert(front.push(last) == name);
        }
    }
}

/// Two names that hold no code and have the same object path are the same
/// name.
pub proof fn lemma_unit_path_injective(first: Seq<char>, second: Seq<char>)
    requires
        holds_no_code(first),
        holds_no_code(second),
        unit_path(first) == unit_path(second),
    ensures
        first == second,
{
    let root = unit_root();
    assert(escape(first) == unit_path(first).skip(root.len() as int));
    assert(escape(second) == unit_path(second).skip(root.len() as int));
    lemma_unescape_escape(first);
    lemma_unescape_escape(second);
}

/// Whether a character may stand inside an element of an object path: an
/// ASCII letter, an ASCII digit or `_`.
pub open spec fn is_element_char(c: char) -> bool {
    ('a' <= c && c <= 'z') || ('A' <= c && c <= 'Z') || ('0' <= c && c <= '9') || c == '_'
}

/// The grammar of an object path: it starts with `/`, its elements are
/// separated by single `/`, no element is empty, and it ends in `/` only
/// where it is the root `/` itself.
pub open spec fn is_object_path(path: Seq<char>) -> bool {
    &&& path.len() > 0
    &&& path[0] == '/'
    &&& (path.len() > 1 ==> path.last() != '/')
    &&& forall|i: int|
        0 <= i < path.len() ==> is_element_char(#[trigger] path[i]) || path[i] == '/'
    &&& forall|i: int| 0 < i < path.len() ==> !(path[i - 1] == '/' && #[trigger] path[i] == '/')
}

/// Whether a character may stand in the name of a service whose unit has
/// an object path.
pub open spec fn is_name_char(c: char) -> bool {
    is_element_char(c) || is_special(c) || c == '/'
}

/// The service names whose units have an object path: not empty, made of
/// ASCII letters, ASCII digits, `_`, the three special characters and
/// single `/`, and with no `/` at either end.
pub open spec fn is_encodable(name: Seq<char>) -> bool {
    &&& name.len() > 0
    &&& name[0] != '/'
    &&& name.last() != '/'
    &&& forall|i: int| 0 <= i < name.len() ==> is_name_char(#[trigger] name[i])
    &&& forall|i: int| 0 < i < name.len() ==> !(name[i - 1] == '/' && #[trigger] name[i] == '/')
}

/// Whether a text is made of the characters of an object path and holds
/// no `//`.
spec fn is_joined(text: Seq<char>) -> bool {
    &&& forall|i: int|
        0 <= i < text.len() ==> is_element_char(#[trigger] text[i]) || text[i] == '/'
    &&& forall|i: int| 0 < i < text.len() ==> !(text[i - 1] == '/' && #[trigger] text[i] == '/')
}

/// Whether a name is made of the characters of a service name and holds
/// no `//`.
spec fn is_joined_name(name: Seq<char>) -> bool {
    &&& forall|i: int| 0 <= i < name.len() ==> is_name_char(#[trigger] name[i])
    &&& forall|i: int| 0 < i < name.len() ==> !(name[i - 1] == '/' && #[trigger] name[i] == '/')
}

/// The root is made of the characters of an object path, holds no `//`,
/// and starts and ends with `/`.
proof fn lemma_root_is_joined()
    ensures
        unit_root().len() == 31,
        unit_root()[0] == '/',
        unit_root().last() == '/',
        is_joined(unit_root()),
{
    reveal_strlit("/org/freedesktop/systemd1/unit/");
    let root = unit_root();
    assert forall|i: int| 0 <= i < root.len() implies (is_element_char(#[trigger] root[i])
        || root[i] == '/') && (0 < i ==> !(root[i - 1] == '/' && root[i] == '/')) by {}
}

/// What one more character of the name does to the text that stands
/// before it.
proof fn lemma_joined_step(text: Seq<char>, c: char)
    requires
        text.len() > 0,
    ensures
        is_joined(text + escape_char(c)) <==> is_joined(text) && is_name_char(c) && !(text.last()
            == '/' && c == '/'),
        (text + escape_char(c)).last() == '/' <==> c == '/',
{
    let added = escape_char(c);
    let whole = text + added;
    assert forall|i: int| 0 <= i < text.len() implies whole[i] == text[i] by {}
    assert forall|i: int| text.len() <= i < whole.len() implies whole[i] == added[i - text.len()] by {}
    if is_joined(whole) {
        assert(is_joined(text)) by {
            assert forall|i: int| 0 <= i < text.len() implies (is_element_char(#[trigger] text[i])
                || text[i] == '/') && (0 < i ==> !(text[i - 1] == '/' && text[i] == '/')) by {
                assert(whole[i] == text[i]);
                if 0 < i {
                    assert(whole[i - 1] == text[i - 1]);
                }
            }
        }
        assert(whole[text.len() as int] == added[0]);
        assert(whole[text.len() - 1] == text.last());
        assert(is_element_char(whole[text.len() as int]) || whole[text.len() as int] == '/');
    }
    if is_joined(text) && is_name_char(c) && !(text.last() == '/' && c == '/') {
        assert forall|i: int| 0 <= i < whole.len() implies (is_element_char(#[trigger] whole[i])
            || whole[i] == '/') && (0 < i ==> !(whole[i - 1] == '/' && whole[i] == '/')) by {
            if i < text.len() {
                assert(whole[i] == text[i]);
                if 0 < i {
                    assert(whole[i - 1] == text[i - 1]);
                }
            } else {
                assert(whole[i] == added[i - text.len()]);
                if i == text.len() {
                    assert(whole[i - 1] == text.last());
                } else {
                    assert(whole[i - 1] == added[i - 1 - text.len()]);
                }
            }
        }
    }
}

/// What the root and the escaped name make of a name, as far as the
/// grammar of object paths goes.
proof fn lemma_unit_path_joined(name: Seq<char>)
    ensures
        is_joined(unit_path(name)) <==> is_joined_name(name) && (name.len() > 0 ==> name[0] != '/'),
        unit_path(name).last() == '/' <==> name.len() == 0 || name.last() == '/',
        unit_path(name).len() >= 31,
        unit_path(name)[0] == '/',
    decreases name.len(),
{
    lemma_root_is_joined();
    if name.len() == 0 {
        assert(unit_path(name) == unit_root());
    } else {
        let front = name.drop_last();
        let c = name.last();
        lemma_unit_path_joined(front);
        assert(unit_path(name) == unit_path(front) + escape_char(c));
        lemma_joined_step(unit_path(front), c);
        assert(unit_path(name)[0] == unit_path(front)[0]);
        if is_joined_name(name) {
            assert(is_joined_name(front)) by {
                assert forall|i: int| 0 <= i < front.len() implies is_name_char(
                    #[trigger] front[i],
                ) && (0 < i ==> !(front[i - 1] == '/' && front[i] == '/')) by {
                    assert(name[i] == front[i]);
                }
            }
            assert(is_name_char(name[name.len() - 1]));
            if front.len() > 0 {
                assert(!(name[name.len() - 2] == '/' && name[name.len() - 1] == '/'));
            }
        }
        if is_joined_name(front) && is_name_char(c) && !(front.len() > 0 && front.last() == '/'
            && c == '/') {
            assert forall|i: int| 0 <= i < name.len() implies is_name_char(#[trigger] name[i])
                && (0 < i ==> !(name[i - 1] == '/' && name[i] == '/')) by {
                if i < front.len() {
                    assert(name[i] == front[i]);
                }
            }
        }
        if front.len() > 0 {
            assert(name[0] == front[0]);
        }
    }
}

/// A service has a unit with an object path exactly when its name is
/// encodable: these are the names for which a start-and-wait can begin.
pub proof fn lemma_unit_path_is_object_path(name: Seq<char>)
    ensures
        is_object_path(unit_path(name)) <==> is_encodable(name),
{
    lemma_unit_path_joined(name);
}

/// Asks `zvariant` whether the text is an object path, by
/// `ObjectPath::try_from`. That function accepts a text exactly when it is
/// not empty, starts with `/`, holds no `//`, does not end in `/` unless it
/// is `/` alone, and is made of ASCII letters, ASCII digits, `_` and `/`
/// only: the grammar that `is_object_path` states.
#[verifier::external_body]
fn accepted_as_object_path(path: &str) -> (accepted: bool)
    ensures
        accepted == is_object_path(path@),
{
    zbus::zvariant::ObjectPath::try_from(path).is_ok()
}

/// The object path of a unit, made from the unit's name and known to be
/// an object path.
pub struct UnitReference {
    path: String,
}

impl View for UnitReference {
    type V = Seq<char>;

    closed spec fn view(&self) -> Seq<char> {
        self.path@
    }
}

impl UnitReference {
    #[verifier::type_invariant]
    spec fn well_formed(&self) -> bool {
        is_object_path(self.path@)
    }

    /// The reference to the unit of the given service. It exists exactly
    /// when the encoded name is an object path; otherwise the name is
    /// refused, and nothing is made of it.
    pub fn for_service(service_name: &str) -> (made: Result<UnitReference, ControllerError>)
        ensures
            match made {
                Ok(unit) => unit@ == unit_path(service_name@) && is_object_path(unit@),
                Err(error) => !is_object_path(unit_path(service_name@)) && error@
                    == path_encoding_error(service_name@),
            },
    {
        let path = service_to_unit_path(service_name);
        if accepted_as_object_path(path.as_str()) {
            Ok(UnitReference { path })
        } else {
            Err(ControllerError::path_encoding(service_name))
        }
    }

    /// The object path, as text.
    pub fn path(&self) -> (path: &str)
        ensures
            path@ == self@,
            is_object_path(path@),
    {
        proof {
            use_type_invariant(self);
        }
        self.path.as_str()
    }

    /// Gives up the reference for its object path.
    pub fn into_path(self) -> (path: String)
        ensures
            path@ == self@,
            is_object_path(path@),
    {
        proof {
            use_type_invariant(&self);
        }
        self.path
    }
}

} // verus!
