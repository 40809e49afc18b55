//! What holds of every translation, proved from the model.

use vstd::prelude::*;
use crate::args::is_translation;
use crate::errors::ConfigParseError;
use crate::model::{
    entries_in, entries_of, field_tokens, item_tokens, joined, option_of, options_of,
    quoted_texts, translated, Tree,
};
use crate::quote::quoted;

verus! {

/// No item of the array is a string.
pub open spec fn no_text_item(items: Seq<Tree>) -> bool {
    forall|i: int| 0 <= i < items.len() ==> !(#[trigger] items[i] is Text)
}

/// No field of the object holds a string.
pub open spec fn no_text_field(fields: Seq<(Seq<char>, Tree)>) -> bool {
    forall|i: int| 0 <= i < fields.len() ==> !((#[trigger] fields[i]).1 is Text)
}

/// A configuration whose only member is `entry`, holding a string,
/// translates to that string, quoted.
pub proof fn lemma_entry_alone(root: Tree, s: Seq<char>)
    requires
        root == Tree::Object(seq![("entry"@, Tree::Text(s))]),
    ensures
        translated(root, None) == Some(quoted(s)),
{
    let fields = seq![("entry"@, Tree::Text(s))];
    assert(fields.drop_last() =~= Seq::empty());
    assert(fields.last() == ("entry"@, Tree::Text(s)));
    reveal_with_fuel(Seq::filter_map, 2);
    reveal_with_fuel(entries_in, 2);
    assert(options_of(fields) =~= Seq::empty());
    assert(entries_in(fields) =~= seq![quoted(s)]);
    assert(options_of(fields) + entries_in(fields) =~= seq![quoted(s)]);
}

/// A member that is `false` yields no token, and one that is `true`
/// yields exactly `--key`.
pub proof fn lemma_boolean_option(key: Seq<char>, flag: bool)
    ensures
        !flag ==> option_of(key, Tree::Boolean(flag)) is None,
        flag ==> option_of(key, Tree::Boolean(flag)) == Some("--"@ + key),
{
}

/// A member that is `false` leaves the options of the configuration as
/// they were, and one that is `true` adds `--key` behind them, whatever
/// stands before it. Neither changes the entry files.
pub proof fn lemma_boolean_member(fields: Seq<(Seq<char>, Tree)>, key: Seq<char>, flag: bool)
    requires
        key != "entry"@,
    ensures
        !flag ==> options_of(fields.push((key, Tree::Boolean(flag)))) == options_of(fields),
        flag ==> options_of(fields.push((key, Tree::Boolean(flag)))) == options_of(fields).push(
            "--"@ + key,
        ),
        entries_in(fields.push((key, Tree::Boolean(flag)))) == entries_in(fields),
{
    let longer = fields.push((key, Tree::Boolean(flag)));
    assert(longer.drop_last() =~= fields);
    assert(longer.last() == (key, Tree::Boolean(flag)));
}

/// An array without a string among its items yields no token at all, as
/// an option and as the value of `entry`: it counts as the empty array
/// does.
pub proof fn lemma_array_without_text(key: Seq<char>, items: Seq<Tree>)
    requires
        no_text_item(items),
    ensures
        item_tokens(key, items) == Seq::<Seq<char>>::empty(),
        quoted_texts(items) == Seq::<Seq<char>>::empty(),
        option_of(key, Tree::Array(items)) is None,
        entries_of(Tree::Array(items)) is None,
        option_of(key, Tree::Array(items)) == option_of(key, Tree::Array(Seq::empty())),
        entries_of(Tree::Array(items)) == entries_of(Tree::Array(Seq::empty())),
    decreases items.len(),
{
    if items.len() > 0 {
        assert(!(items[items.len() - 1] is Text));
        lemma_array_without_text(key, items.drop_last());
    }
}

/// An object without a string among the values of its fields yields no
/// token: it counts as the empty object does.
pub proof fn lemma_object_without_text(key: Seq<char>, fields: Seq<(Seq<char>, Tree)>)
    requires
        no_text_field(fields),
    ensures
        field_tokens(key, fields) == Seq::<Seq<char>>::empty(),
        option_of(key, Tree::Object(fields)) is None,
        option_of(key, Tree::Object(fields)) == option_of(key, Tree::Object(Seq::empty())),
    decreases fields.len(),
{
    if fields.len() > 0 {
        assert(!(fields[fields.len() - 1].1 is Text));
        lemma_object_without_text(key, fields.drop_last());
    }
}

/// A document that is not an object has no translation, whether or not a
/// subfield is asked for.
pub proof fn lemma_root_must_be_object(root: Tree, subfield: Option<Seq<char>>)
    requires
        !(root is Object),
    ensures
        translated(root, subfield) is None,
{
}

/// Two translations of one document agree: both fail, or both give the
/// same string.
pub proof fn lemma_translation_is_a_function(
    first: Result<String, ConfigParseError>,
    second: Result<String, ConfigParseError>,
    root: Tree,
    subfield: Option<Seq<char>>,
)
    requires
        is_translation(first, root, subfield),
        is_translation(second, root, subfield),
    ensures
        first is Ok <==> second is Ok,
        first matches Ok(a) ==> second matches Ok(b) && a@ == b@,
{
}

/// The options keep the order of the members: those of a configuration
/// in two parts are those of the first part, then those of the second.
pub proof fn lemma_options_keep_order(
    first: Seq<(Seq<char>, Tree)>,
    second: Seq<(Seq<char>, Tree)>,
)
    ensures
        options_of(first + second) == options_of(first) + options_of(second),
    decreases second.len(),
{
    if second.len() == 0 {
        assert(first + second =~= first);
        assert(options_of(first) + options_of(second) =~= options_of(first));
    } else {
        lemma_options_keep_order(first, second.drop_last());
        assert((first + second).drop_last() =~= first + second.drop_last());
        assert((first + second).last() == second.last());
        let before = options_of(second.drop_last());
        if second.last().0 != "entry"@ {
            match option_of(second.last().0, second.last().1) {
                Some(token) => {
                    assert(options_of(first) + before.push(token) =~= (options_of(first)
                        + before).push(token));
                },
                None => {},
            }
        }
    }
}

/// The member `entry` is no option: whatever it holds, the options of the
/// configuration stay as they were.
pub proof fn lemma_entry_is_no_option(fields: Seq<(Seq<char>, Tree)>, value: Tree)
    ensures
        options_of(fields.push(("entry"@, value))) == options_of(fields),
{
    let longer = fields.push(("entry"@, value));
    assert(longer.drop_last() =~= fields);
    assert(longer.last() == ("entry"@, value));
}

/// Joining two groups of words at once is joining each and putting a
/// single space between them.
pub proof fn lemma_joined_groups(first: Seq<Seq<char>>, second: Seq<Seq<char>>)
    requires
        first.len() > 0,
        second.len() > 0,
    ensures
        joined(first + second) == joined(first) + " "@ + joined(second),
    decreases second.len(),
{
    let all = first + second;
    assert(all.last() == second.last());
    if second.len() == 1 {
        assert(all.drop_last() =~= first);
    } else {
        let shorter = second.drop_last();
        lemma_joined_groups(first, shorter);
        assert(all.drop_last() =~= first + shorter);
        assert(joined(first) + " "@ + joined(shorter) + " "@ + second.last() =~= joined(first)
            + " "@ + (joined(shorter) + " "@ + second.last()));
    }
}

/// The entry files stand behind all options, one space between the two
/// groups; where one group is empty the other stands alone, and where
/// both are the argument string is empty.
pub proof fn lemma_entries_come_last(fields: Seq<(Seq<char>, Tree)>)
    ensures
        translated(Tree::Object(fields), None) == Some(
            if options_of(fields).len() == 0 {
                joined(entries_in(fields))
            } else if entries_in(fields).len() == 0 {
                joined(options_of(fields))
            } else {
                joined(options_of(fields)) + " "@ + joined(entries_in(fields))
            },
        ),
{
    let options = options_of(fields);
    let entries = entries_in(fields);
    if options.len() == 0 {
        assert(options + entries =~= entries);
    } else if entries.len() == 0 {
        assert(options + entries =~= options);
    } else {
        lemma_joined_groups(options, entries);
    }
}

} // verus!
