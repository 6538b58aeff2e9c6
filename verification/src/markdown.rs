//! Proposal descriptions: "* Key Name: value" items joined with " <br>".
use vstd::prelude::*;
use crate::json::field_views;
use crate::text::{ascii_upper, is_uppercase, push_char, to_ascii_uppercase, uppercase_letter};

verus! {

/// The one-character step of the readable form: what a character of the key becomes,
/// given whether the next letter starts a word (`capitalize`) and whether it is the
/// first character of the key or follows a space of the key (`after_space`).
pub open spec fn readable_char(c: char, capitalize: bool, after_space: bool) -> Seq<char> {
    if c == '_' {
        seq![' ']
    } else if uppercase_letter(c) {
        if after_space {
            seq![c]
        } else {
            seq![' ', c]
        }
    } else if capitalize {
        seq![ascii_upper(c)]
    } else {
        seq![c]
    }
}

/// Readable form of the rest of a key.
pub open spec fn readable_from(key: Seq<char>, capitalize: bool, after_space: bool) -> Seq<char>
    decreases key.len(),
{
    if key.len() == 0 {
        Seq::empty()
    } else {
        let c = key[0];
        let rest = key.drop_first();
        readable_char(c, capitalize, after_space) + if c == '_' {
            readable_from(rest, true, false)
        } else if uppercase_letter(c) {
            readable_from(rest, false, false)
        } else {
            readable_from(rest, false, c == ' ')
        }
    }
}

/// Readable form of a key: `_` becomes a space and starts a word; an uppercase letter
/// is preceded by a space unless it is first or follows a space of the key; the
/// first letter of the key and of each word after an underscore is uppercased. A key
/// that is already readable is kept as it is.
pub open spec fn readable_key_spec(key: Seq<char>) -> Seq<char> {
    readable_from(key, true, true)
}

proof fn lemma_readable_step(key: Seq<char>, i: int, capitalize: bool, after_space: bool)
    requires
        0 <= i < key.len(),
    ensures
        readable_from(key.skip(i), capitalize, after_space) == readable_char(
            key[i],
            capitalize,
            after_space,
        ) + if key[i] == '_' {
            readable_from(key.skip(i + 1), true, false)
        } else if uppercase_letter(key[i]) {
            readable_from(key.skip(i + 1), false, false)
        } else {
            readable_from(key.skip(i + 1), false, key[i] == ' ')
        },
{
    assert(key.skip(i).drop_first() =~= key.skip(i + 1));
}

/// Human-readable label for a key: snake and camel case keys are spelled out, keys
/// that are already readable are kept.
pub fn readable_key(key: &str) -> (r: String)
    ensures
        r@ == readable_key_spec(key@),
{
    let chars = crate::text::chars_of(key);
    let n = chars.len();
    let mut result = String::new();
    let mut capitalize = true;
    let mut after_space = true;
    assert(key@.skip(0) =~= key@);
    for i in 0..n
        invariant
            n == key@.len(),
            chars@ == key@,
            result@ + readable_from(key@.skip(i as int), capitalize, after_space)
                == readable_key_spec(key@),
    {
        let c = chars[i];
        proof {
            lemma_readable_step(key@, i as int, capitalize, after_space);
        }
        let ghost before = result@;
        let ghost step = readable_char(c, capitalize, after_space);
        if c == '_' {
            push_char(&mut result, ' ');
            capitalize = true;
            after_space = false;
        } else if is_uppercase(c) {
            if !after_space {
                push_char(&mut result, ' ');
            }
            push_char(&mut result, c);
            capitalize = false;
            after_space = false;
        } else if capitalize {
            push_char(&mut result, to_ascii_uppercase(c));
            capitalize = false;
            after_space = c == ' ';
        } else {
            push_char(&mut result, c);
            after_space = c == ' ';
        }
        assert(result@ =~= before + step);
        assert(result@ + readable_from(key@.skip(i + 1), capitalize, after_space) =~= before + (
        step + readable_from(key@.skip(i + 1), capitalize, after_space)));
    }
    assert(key@.skip(n as int) =~= Seq::<char>::empty());
    assert(result@ =~= result@ + readable_from(key@.skip(n as int), capitalize, after_space));
    result
}

/// A readable key never holds an underscore: every `_` of the key becomes a space.
pub proof fn lemma_readable_has_no_underscore(key: Seq<char>, capitalize: bool, after_space: bool)
    ensures
        !readable_from(key, capitalize, after_space).contains('_'),
    decreases key.len(),
{
    if key.len() > 0 {
        let c = key[0];
        let rest = key.drop_first();
        lemma_readable_has_no_underscore(rest, true, false);
        lemma_readable_has_no_underscore(rest, false, false);
        lemma_readable_has_no_underscore(rest, false, true);
        let r = readable_from(key, capitalize, after_space);
        let head = readable_char(c, capitalize, after_space);
        let tail = if c == '_' {
            readable_from(rest, true, false)
        } else if uppercase_letter(c) {
            readable_from(rest, false, false)
        } else {
            readable_from(rest, false, c == ' ')
        };
        assert(r == head + tail);
        assert forall|j: int| 0 <= j < r.len() implies r[j] != '_' by {
            if j < head.len() {
                assert(head[j] != '_');
            } else {
                assert(r[j] == tail[j - head.len()]);
            }
        }
    }
}

/// Number of uppercase letters of a key.
pub open spec fn uppercase_count(key: Seq<char>) -> nat
    decreases key.len(),
{
    if key.len() == 0 {
        0
    } else {
        (if uppercase_letter(key[0]) {
            1nat
        } else {
            0nat
        }) + uppercase_count(key.drop_first())
    }
}

proof fn lemma_readable_len(key: Seq<char>, capitalize: bool, after_space: bool)
    requires
        key.len() > 0 && uppercase_letter(key[0]) ==> !after_space,
        forall|i: int| 0 < i < key.len() && uppercase_letter(#[trigger] key[i]) ==> key[i - 1] != ' ',
    ensures
        readable_from(key, capitalize, after_space).len() == key.len() + uppercase_count(key),
    decreases key.len(),
{
    if key.len() > 0 {
        let c = key[0];
        let rest = key.drop_first();
        assert forall|i: int| 0 < i < rest.len() && uppercase_letter(#[trigger] rest[i]) implies rest[i
            - 1] != ' ' by {
            assert(rest[i] == key[i + 1]);
        }
        if rest.len() > 0 && uppercase_letter(rest[0]) {
            assert(rest[0] == key[1]);
        }
        lemma_readable_len(rest, true, false);
        lemma_readable_len(rest, false, false);
        lemma_readable_len(rest, false, c == ' ');
    }
}

/// Every underscore becomes one space and every uppercase letter gets one space before
/// it, so the readable form is longer than the key by the number of its uppercase
/// letters (for a key in which no uppercase letter comes first or right after a
/// space).
pub proof fn lemma_readable_key_length(key: Seq<char>)
    requires
        key.len() > 0 ==> !uppercase_letter(key[0]),
        forall|i: int| 0 < i < key.len() && uppercase_letter(#[trigger] key[i]) ==> key[i - 1] != ' ',
    ensures
        readable_key_spec(key).len() == key.len() + uppercase_count(key),
        !readable_key_spec(key).contains('_'),
{
    lemma_readable_len(key, true, true);
    lemma_readable_has_no_underscore(key, true, true);
}

/// Whether a key is already readable: no underscore, a first character that is not a
/// lowercase ASCII letter, and uppercase letters only at the start or after a space.
pub open spec fn is_readable_key(key: Seq<char>) -> bool {
    &&& forall|i: int| 0 <= i < key.len() ==> #[trigger] key[i] != '_'
    &&& key.len() > 0 ==> !('a' <= key[0] && key[0] <= 'z')
    &&& forall|i: int| 0 < i < key.len() && uppercase_letter(#[trigger] key[i]) ==> key[i - 1] == ' '
}

proof fn lemma_readable_kept(key: Seq<char>, capitalize: bool, after_space: bool)
    requires
        forall|i: int| 0 <= i < key.len() ==> #[trigger] key[i] != '_',
        forall|i: int| 0 < i < key.len() && uppercase_letter(#[trigger] key[i]) ==> key[i - 1] == ' ',
        key.len() > 0 && uppercase_letter(key[0]) ==> after_space,
        key.len() > 0 && capitalize ==> !('a' <= key[0] && key[0] <= 'z'),
    ensures
        readable_from(key, capitalize, after_space) == key,
    decreases key.len(),
{
    if key.len() > 0 {
        let c = key[0];
        let rest = key.drop_first();
        assert forall|i: int| 0 <= i < rest.len() implies #[trigger] rest[i] != '_' by {
            assert(rest[i] == key[i + 1]);
        }
        assert forall|i: int| 0 < i < rest.len() && uppercase_letter(#[trigger] rest[i]) implies rest[i
            - 1] == ' ' by {
            assert(rest[i] == key[i + 1]);
        }
        if rest.len() > 0 && uppercase_letter(rest[0]) {
            assert(rest[0] == key[1]);
        }
        if uppercase_letter(c) {
            assert(c != ' ');
        }
        lemma_readable_kept(rest, false, c == ' ');
        assert(readable_char(c, capitalize, after_space) == seq![c]);
        assert(key =~= seq![c] + rest);
    }
}

/// A key that is already readable is kept as it is.
pub proof fn lemma_readable_key_keeps_readable(key: Seq<char>)
    requires
        is_readable_key(key),
    ensures
        readable_key_spec(key) == key,
{
    lemma_readable_kept(key, true, true);
}

/// Whether a text is made of lowercase ASCII letters.
pub open spec fn is_lower_word(w: Seq<char>) -> bool {
    forall|i: int| 0 <= i < w.len() ==> 'a' <= #[trigger] w[i] && w[i] <= 'z'
}

/// A word with its first letter uppercased.
pub open spec fn capitalized(w: Seq<char>) -> Seq<char> {
    seq![ascii_upper(w[0])] + w.drop_first()
}

proof fn lemma_readable_lower_word(w: Seq<char>, rest: Seq<char>, after_space: bool)
    requires
        is_lower_word(w),
    ensures
        readable_from(w + rest, false, after_space) == w + readable_from(
            rest,
            false,
            if w.len() == 0 {
                after_space
            } else {
                false
            },
        ),
    decreases w.len(),
{
    if w.len() == 0 {
        assert(w + rest =~= rest);
    } else {
        let c = w[0];
        assert((w + rest).drop_first() =~= w.drop_first() + rest);
        assert(is_lower_word(w.drop_first())) by {
            assert forall|i: int| 0 <= i < w.drop_first().len() implies 'a' <= #[trigger] w.drop_first()[i]
                && w.drop_first()[i] <= 'z' by {
                assert(w.drop_first()[i] == w[i + 1]);
            }
        }
        lemma_readable_lower_word(w.drop_first(), rest, false);
        assert((w + rest)[0] == c);
        assert(!uppercase_letter(c));
        assert(w =~= seq![c] + w.drop_first());
    }
}

/// A snake_case key and the camelCase key of the same two lowercase words read the
/// same: each word capitalized, separated by one space.
pub proof fn lemma_snake_and_camel_read_the_same(w1: Seq<char>, w2: Seq<char>)
    requires
        w1.len() > 0,
        w2.len() > 0,
        is_lower_word(w1),
        is_lower_word(w2),
    ensures
        readable_key_spec(w1 + seq!['_'] + w2) == capitalized(w1) + seq![' '] + capitalized(w2),
        readable_key_spec(w1 + capitalized(w2)) == capitalized(w1) + seq![' '] + capitalized(w2),
{
    let t1 = w1.drop_first();
    let t2 = w2.drop_first();
    assert(is_lower_word(t1)) by {
        assert forall|i: int| 0 <= i < t1.len() implies 'a' <= #[trigger] t1[i] && t1[i] <= 'z' by {
            assert(t1[i] == w1[i + 1]);
        }
    }
    assert(is_lower_word(t2)) by {
        assert forall|i: int| 0 <= i < t2.len() implies 'a' <= #[trigger] t2[i] && t2[i] <= 'z' by {
            assert(t2[i] == w2[i + 1]);
        }
    }
    let u1 = ascii_upper(w1[0]);
    let u2 = ascii_upper(w2[0]);
    assert('a' <= w1[0] && w1[0] <= 'z');
    assert('a' <= w2[0] && w2[0] <= 'z');
    assert('A' <= u2 && u2 <= 'Z');
    assert(uppercase_letter(u2));
    assert(!uppercase_letter(w1[0]));
    assert(!uppercase_letter(w2[0]));
    // snake case
    let snake = w1 + seq!['_'] + w2;
    assert(snake.drop_first() =~= t1 + (seq!['_'] + w2));
    lemma_readable_lower_word(t1, seq!['_'] + w2, false);
    assert((seq!['_'] + w2).drop_first() =~= w2);
    assert(w2.drop_first() =~= t2 + Seq::<char>::empty());
    lemma_readable_lower_word(t2, Seq::<char>::empty(), false);
    assert(readable_from(w2, true, false) == seq![u2] + readable_from(t2, false, false));
    assert(readable_from(t2, false, false) == t2) by {
        assert(t2 + Seq::<char>::empty() =~= t2);
    }
    assert(readable_from(seq!['_'] + w2, false, false) == seq![' '] + readable_from(w2, true, false));
    assert(readable_from(snake, true, true) == seq![u1] + readable_from(t1 + (seq!['_'] + w2), false, false));
    assert(readable_key_spec(snake) =~= capitalized(w1) + seq![' '] + capitalized(w2));
    // camel case
    let camel = w1 + capitalized(w2);
    assert(camel.drop_first() =~= t1 + capitalized(w2));
    lemma_readable_lower_word(t1, capitalized(w2), false);
    assert(capitalized(w2).drop_first() =~= t2);
    assert(capitalized(w2)[0] == u2);
    assert(readable_from(capitalized(w2), false, false) == seq![' ', u2] + readable_from(t2, false, false));
    assert(readable_from(camel, true, true) == seq![u1] + readable_from(t1 + capitalized(w2), false, false));
    assert(readable_key_spec(camel) =~= capitalized(w1) + seq![' '] + capitalized(w2));
}

/// One description item `* Key Name: value`.
pub open spec fn markdown_item(key: Seq<char>, value: Seq<char>) -> Seq<char> {
    "* "@ + readable_key_spec(key) + ": "@ + value
}

/// The items of the pairs whose value is not empty, in order.
pub open spec fn markdown_items(pairs: Seq<(Seq<char>, Seq<char>)>) -> Seq<Seq<char>>
    decreases pairs.len(),
{
    if pairs.len() == 0 {
        Seq::empty()
    } else {
        let rest = markdown_items(pairs.drop_last());
        if pairs.last().1.len() == 0 {
            rest
        } else {
            rest.push(markdown_item(pairs.last().0, pairs.last().1))
        }
    }
}

/// Texts joined with a separator.
pub open spec fn join_with(items: Seq<Seq<char>>, sep: Seq<char>) -> Seq<char>
    decreases items.len(),
{
    if items.len() == 0 {
        Seq::empty()
    } else if items.len() == 1 {
        items[0]
    } else {
        join_with(items.drop_last(), sep) + sep + items.last()
    }
}

/// The description text of a list of key/value pairs.
pub open spec fn markdown_text(pairs: Seq<(Seq<char>, Seq<char>)>) -> Seq<char> {
    join_with(markdown_items(pairs), " <br>"@)
}

/// "* Key Name: value" pairs joined with " <br>", empty values skipped. Keys are
/// passed already human-readable (and kept so) or in snake or camel case.
pub fn encode_to_markdown(pairs: &[(&str, &str)]) -> (r: String)
    ensures
        r@ == markdown_text(field_views(pairs@)),
{
    let ghost pv = field_views(pairs@);
    let n = pairs.len();
    let mut items: Vec<String> = Vec::new();
    assert(pv.take(0) =~= Seq::<(Seq<char>, Seq<char>)>::empty());
    for i in 0..n
        invariant
            n == pairs@.len(),
            pv == field_views(pairs@),
            items@.map_values(|s: String| s@) == markdown_items(pv.take(i as int)),
    {
        let (key, value) = pairs[i];
        proof {
            assert(pv.take(i + 1).drop_last() =~= pv.take(i as int));
            assert(pv.take(i + 1).last() == (key@, value@));
        }
        if value.unicode_len() != 0 {
            let mut item = String::from_str("* ");
            let label = readable_key(key);
            item.append(label.as_str());
            item.append(": ");
            item.append(value);
            let ghost before = items@;
            items.push(item);
            assert(items@.map_values(|s: String| s@) =~= before.map_values(|s: String| s@).push(
                markdown_item(key@, value@),
            ));
        }
    }
    assert(pv.take(n as int) =~= pv);
    join_strings(&items, " <br>")
}

/// Joins texts with a separator.
pub fn join_strings(items: &Vec<String>, sep: &str) -> (r: String)
    ensures
        r@ == join_with(items@.map_values(|s: String| s@), sep@),
{
    let ghost views = items@.map_values(|s: String| s@);
    let mut out = String::new();
    let n = items.len();
    assert(views.take(0) =~= Seq::<Seq<char>>::empty());
    for i in 0..n
        invariant
            n == items@.len(),
            views == items@.map_values(|s: String| s@),
            out@ == join_with(views.take(i as int), sep@),
    {
        proof {
            assert(views.take(i + 1).drop_last() =~= views.take(i as int));
            assert(views.take(i + 1).last() == items@[i as int]@);
        }
        if i > 0 {
            out.append(sep);
        }
        out.append(items[i].as_str());
        assert(i == 0 ==> out@ =~= join_with(views.take(i + 1), sep@));
    }
    assert(views.take(n as int) =~= views);
    out
}

/// A description is empty exactly when every value is empty.
pub proof fn lemma_markdown_empty_iff_no_values(pairs: Seq<(Seq<char>, Seq<char>)>)
    ensures
        (markdown_text(pairs).len() == 0) <==> (forall|i: int|
            0 <= i < pairs.len() ==> (#[trigger] pairs[i]).1.len() == 0),
{
    lemma_markdown_items_count(pairs);
    lemma_join_empty(markdown_items(pairs), " <br>"@);
}

proof fn lemma_markdown_items_count(pairs: Seq<(Seq<char>, Seq<char>)>)
    ensures
        (markdown_items(pairs).len() == 0) <==> (forall|i: int|
            0 <= i < pairs.len() ==> (#[trigger] pairs[i]).1.len() == 0),
        forall|j: int|
            0 <= j < markdown_items(pairs).len() ==> (#[trigger] markdown_items(pairs)[j]).len()
                > 0,
    decreases pairs.len(),
{
    reveal_strlit("* ");
    if pairs.len() > 0 {
        let p = pairs.drop_last();
        lemma_markdown_items_count(p);
        assert forall|i: int| 0 <= i < p.len() implies #[trigger] p[i] == pairs[i] by {}
        if pairs.last().1.len() != 0 {
            assert(markdown_items(pairs).last() == markdown_item(
                pairs.last().0,
                pairs.last().1,
            ));
        }
        if (forall|i: int| 0 <= i < p.len() ==> (#[trigger] p[i]).1.len() == 0) && pairs.last().1.len()
            == 0 {
            assert forall|i: int| 0 <= i < pairs.len() implies (#[trigger] pairs[i]).1.len() == 0 by {
                if i < p.len() {
                    assert(p[i] == pairs[i]);
                }
            }
        }
        if forall|i: int| 0 <= i < pairs.len() ==> (#[trigger] pairs[i]).1.len() == 0 {
            assert(pairs[pairs.len() - 1].1.len() == 0);
            assert forall|i: int| 0 <= i < p.len() implies (#[trigger] p[i]).1.len() == 0 by {
                assert(p[i] == pairs[i]);
            }
        }
    }
}

proof fn lemma_join_empty(items: Seq<Seq<char>>, sep: Seq<char>)
    requires
        forall|j: int| 0 <= j < items.len() ==> (#[trigger] items[j]).len() > 0,
    ensures
        (join_with(items, sep).len() == 0) <==> items.len() == 0,
    decreases items.len(),
{
    if items.len() > 1 {
        assert(items.last() == items[items.len() - 1]);
    } else if items.len() == 1 {
        assert(items[0].len() > 0);
    }
}

} // verus!
