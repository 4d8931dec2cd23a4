use vstd::prelude::*;
use vstd::string::StrSliceExecFns;

verus! {

/// Whether `c` has the Unicode property XID_Start.
pub uninterp spec fn xid_start(c: char) -> bool;

/// Whether `c` has the Unicode property XID_Continue.
pub uninterp spec fn xid_continue(c: char) -> bool;

/// Relies on `unicode_ident::is_xid_start`, a lookup of the XID_Start property.
#[verifier::external_body]
fn is_xid_start(c: char) -> (r: bool)
    ensures
        r == xid_start(c),
{
    unicode_ident::is_xid_start(c)
}

/// Relies on `unicode_ident::is_xid_continue`, a lookup of the XID_Continue property.
#[verifier::external_body]
fn is_xid_continue(c: char) -> (r: bool)
    ensures
        r == xid_continue(c),
{
    unicode_ident::is_xid_continue(c)
}

/// The words that Rust reserves, strict and reserved keywords and the lone
/// underscore, none of which can name a static.
pub open spec fn is_reserved_word(s: Seq<char>) -> bool {
    s == "as"@
        || s == "async"@
        || s == "await"@
        || s == "break"@
        || s == "const"@
        || s == "continue"@
        || s == "crate"@
        || s == "dyn"@
        || s == "else"@
        || s == "enum"@
        || s == "extern"@
        || s == "false"@
        || s == "fn"@
        || s == "for"@
        || s == "if"@
        || s == "impl"@
        || s == "in"@
        || s == "let"@
        || s == "loop"@
        || s == "match"@
        || s == "mod"@
        || s == "move"@
        || s == "mut"@
        || s == "pub"@
        || s == "ref"@
        || s == "return"@
        || s == "self"@
        || s == "Self"@
        || s == "static"@
        || s == "struct"@
        || s == "super"@
        || s == "trait"@
        || s == "true"@
        || s == "type"@
        || s == "unsafe"@
        || s == "use"@
        || s == "where"@
        || s == "while"@
        || s == "abstract"@
        || s == "become"@
        || s == "box"@
        || s == "do"@
        || s == "final"@
        || s == "macro"@
        || s == "override"@
        || s == "priv"@
        || s == "try"@
        || s == "typeof"@
        || s == "unsized"@
        || s == "virtual"@
        || s == "yield"@
        || s == "_"@
}

/// The words that cannot follow `r#` in a raw identifier.
pub open spec fn is_forbidden_raw(s: Seq<char>) -> bool {
    s == "r#_"@
        || s == "r#crate"@
        || s == "r#self"@
        || s == "r#Self"@
        || s == "r#super"@
}

/// The text starts with the raw-identifier prefix `r#`.
pub open spec fn has_raw_prefix(s: Seq<char>) -> bool {
    s.len() >= 2 && s[0] == 'r' && s[1] == '#'
}

/// From position `from` on, the text is an identifier body: a first character
/// that is `_` or XID_Start, then XID_Continue characters. `classes[i]` holds
/// whether `s[i]` is XID_Start and whether it is XID_Continue.
pub open spec fn identifier_body(s: Seq<char>, classes: Seq<(bool, bool)>, from: int) -> bool {
    &&& from < s.len()
    &&& (s[from] == '_' || classes[from].0)
    &&& forall|i: int| from < i < s.len() ==> (#[trigger] classes[i]).1
}

/// Whether `s` is a Rust identifier that can name a static, given the
/// character classes of each of its characters.
pub open spec fn identifier_given(s: Seq<char>, classes: Seq<(bool, bool)>) -> bool {
    if classes.len() != s.len() {
        false
    } else if has_raw_prefix(s) {
        identifier_body(s, classes, 2) && !is_forbidden_raw(s)
    } else {
        identifier_body(s, classes, 0) && !is_reserved_word(s)
    }
}

/// The XID_Start and XID_Continue classes of each character.
pub open spec fn char_classes(s: Seq<char>) -> Seq<(bool, bool)> {
    Seq::new(s.len(), |i: int| (xid_start(s[i]), xid_continue(s[i])))
}

/// Whether `s` is a Rust identifier that can name a static: optionally `r#`,
/// then `_` or an XID_Start character, then XID_Continue characters; not a
/// keyword, not `_`, and after `r#` none of `_`, `crate`, `self`, `Self`, `super`.
pub open spec fn is_identifier_text(s: Seq<char>) -> bool {
    identifier_given(s, char_classes(s))
}

fn text_is(name: &str, word: &str) -> (r: bool)
    ensures
        r == (name@ == word@),
{
    let a = name.to_owned();
    let b = word.to_owned();
    a == b
}

fn reserved_word(name: &str) -> (r: bool)
    ensures
        r == is_reserved_word(name@),
{
    text_is(name, "as")
        || text_is(name, "async")
        || text_is(name, "await")
        || text_is(name, "break")
        || text_is(name, "const")
        || text_is(name, "continue")
        || text_is(name, "crate")
        || text_is(name, "dyn")
        || text_is(name, "else")
        || text_is(name, "enum")
        || text_is(name, "extern")
        || text_is(name, "false")
        || text_is(name, "fn")
        || text_is(name, "for")
        || text_is(name, "if")
        || text_is(name, "impl")
        || text_is(name, "in")
        || text_is(name, "let")
        || text_is(name, "loop")
        || text_is(name, "match")
        || text_is(name, "mod")
        || text_is(name, "move")
        || text_is(name, "mut")
        || text_is(name, "pub")
        || text_is(name, "ref")
        || text_is(name, "return")
        || text_is(name, "self")
        || text_is(name, "Self")
        || text_is(name, "static")
        || text_is(name, "struct")
        || text_is(name, "super")
        || text_is(name, "trait")
        || text_is(name, "true")
        || text_is(name, "type")
        || text_is(name, "unsafe")
        || text_is(name, "use")
        || text_is(name, "where")
        || text_is(name, "while")
        || text_is(name, "abstract")
        || text_is(name, "become")
        || text_is(name, "box")
        || text_is(name, "do")
        || text_is(name, "final")
        || text_is(name, "macro")
        || text_is(name, "override")
        || text_is(name, "priv")
        || text_is(name, "try")
        || text_is(name, "typeof")
        || text_is(name, "unsized")
        || text_is(name, "virtual")
        || text_is(name, "yield")
        || text_is(name, "_")
}

fn forbidden_raw(name: &str) -> (r: bool)
    ensures
        r == is_forbidden_raw(name@),
{
    text_is(name, "r#_")
        || text_is(name, "r#crate")
        || text_is(name, "r#self")
        || text_is(name, "r#Self")
        || text_is(name, "r#super")
}

/// Decides whether `name` is an identifier that can name a static, given the
/// XID_Start and XID_Continue classes of each of its characters.
pub fn identifier_with_classes(name: &str, classes: &Vec<(bool, bool)>) -> (r: bool)
    ensures
        r == identifier_given(name@, classes@),
{
    let n = name.unicode_len();
    if classes.len() != n {
        return false;
    }
    let raw = n >= 2 && name.get_char(0) == 'r' && name.get_char(1) == '#';
    assert(raw == has_raw_prefix(name@));
    let from: usize = if raw { 2 } else { 0 };
    if from >= n {
        return false;
    }
    let first = name.get_char(from);
    if !(first == '_' || classes[from].0) {
        return false;
    }
    let mut i: usize = from + 1;
    while i < n
        invariant
            n == name@.len(),
            classes@.len() == n,
            from < i <= n,
            raw == has_raw_prefix(name@),
            from == (if raw { 2usize } else { 0usize }),
            name@[from as int] == '_' || classes@[from as int].0,
            forall|k: int| from < k < i ==> (#[trigger] classes@[k]).1,
        decreases n - i,
    {
        if !classes[i].1 {
            assert(!identifier_body(name@, classes@, from as int));
            return false;
        }
        i = i + 1;
    }
    if raw {
        !forbidden_raw(name)
    } else {
        !reserved_word(name)
    }
}

/// Whether `name` can name a static in Rust source.
pub fn is_identifier(name: &str) -> (r: bool)
    ensures
        r == is_identifier_text(name@),
{
    let n = name.unicode_len();
    let mut classes: Vec<(bool, bool)> = Vec::new();
    let mut i: usize = 0;
    while i < n
        invariant
            n == name@.len(),
            0 <= i <= n,
            classes@ == char_classes(name@).take(i as int),
        decreases n - i,
    {
        let c = name.get_char(i);
        classes.push((is_xid_start(c), is_xid_continue(c)));
        proof {
            assert(classes@ =~= char_classes(name@).take(i + 1));
        }
        i = i + 1;
    }
    assert(char_classes(name@).take(n as int) =~= char_classes(name@));
    identifier_with_classes(name, &classes)
}

} // verus!
