//! The search path as text: joining entries and splitting them apart.

use vstd::prelude::*;
use crate::library::DynamicLibrary;
use crate::platform::Platform;

verus! {

/// The byte `"`, which encloses literal text in a Windows search path.
pub const QUOTE: u8 = 34;

/// The byte sequences that a list of owned entries holds.
pub open spec fn listed(paths: Seq<Vec<u8>>) -> Seq<Seq<u8>> {
    Seq::new(paths.len(), |i: int| paths[i]@)
}

/// The entries written one after another with `sep` between neighbours.
pub open spec fn join_paths(paths: Seq<Seq<u8>>, sep: u8) -> Seq<u8>
    decreases paths.len(),
{
    if paths.len() == 0 {
        Seq::empty()
    } else if paths.len() == 1 {
        paths[0]
    } else {
        join_paths(paths.drop_last(), sep) + seq![sep] + paths.last()
    }
}

/// Whether the end of `text` lies inside a quoted region: an odd number of
/// quotes came before it.
pub open spec fn in_quote(text: Seq<u8>) -> bool
    decreases text.len(),
{
    if text.len() == 0 {
        false
    } else {
        in_quote(text.drop_last()) != (text.last() == QUOTE)
    }
}

/// The entries of `text`. A separator ends one entry and begins the next, so
/// there is always at least one entry. With `quotes`, a double quote opens or
/// closes a region in which a separator is ordinary text, and the quotes
/// themselves are left out.
pub open spec fn split_paths(text: Seq<u8>, sep: u8, quotes: bool) -> Seq<Seq<u8>>
    decreases text.len(),
{
    if text.len() == 0 {
        seq![Seq::empty()]
    } else {
        let before = split_paths(text.drop_last(), sep, quotes);
        let byte = text.last();
        if quotes && byte == QUOTE {
            before
        } else if byte == sep && !(quotes && in_quote(text.drop_last())) {
            before.push(Seq::empty())
        } else {
            before.update(before.len() - 1, before.last().push(byte))
        }
    }
}

/// An entry that survives joining and splitting: it holds no separator and,
/// with `quotes`, no double quote.
pub open spec fn is_plain(entry: Seq<u8>, sep: u8, quotes: bool) -> bool {
    forall|i: int| 0 <= i < entry.len() ==> is_plain_byte(#[trigger] entry[i], sep, quotes)
}

/// A byte that is neither the separator nor, with `quotes`, a double quote.
pub open spec fn is_plain_byte(byte: u8, sep: u8, quotes: bool) -> bool {
    byte != sep && !(quotes && byte == QUOTE)
}

/// The search path that the variable's text stands for: no entry where the
/// variable is unset, else the entries of its text.
pub open spec fn search_list(platform: Platform, variable: Option<Seq<u8>>) -> Seq<Seq<u8>> {
    match variable {
        None => Seq::empty(),
        Some(text) => split_paths(text, platform.separator_byte(), platform.quotes()),
    }
}

/// The text of a variable that may be unset.
pub open spec fn text_of(variable: Option<&[u8]>) -> Option<Seq<u8>> {
    match variable {
        None => None,
        Some(text) => Some(text@),
    }
}

/// The variable's text after `path` has been put in front of its entries.
pub open spec fn prepended(platform: Platform, path: Seq<u8>, variable: Option<Seq<u8>>) -> Seq<u8> {
    join_paths(seq![path] + search_list(platform, variable), platform.separator_byte())
}

/// A split always yields at least one entry.
pub proof fn split_is_nonempty(text: Seq<u8>, sep: u8, quotes: bool)
    ensures
        split_paths(text, sep, quotes).len() >= 1,
    decreases text.len(),
{
    if text.len() > 0 {
        split_is_nonempty(text.drop_last(), sep, quotes);
    }
}

/// Plain text is one entry, and its end lies outside any quoted region.
pub proof fn split_of_plain(entry: Seq<u8>, sep: u8, quotes: bool)
    requires
        is_plain(entry, sep, quotes),
    ensures
        split_paths(entry, sep, quotes) == seq![entry],
        quotes ==> !in_quote(entry),
    decreases entry.len(),
{
    if entry.len() > 0 {
        let init = entry.drop_last();
        assert forall|i: int| 0 <= i < init.len() implies is_plain_byte(
            #[trigger] init[i],
            sep,
            quotes,
        ) by {
            assert(init[i] == entry[i]);
        }
        split_of_plain(init, sep, quotes);
        assert(is_plain_byte(entry[entry.len() - 1], sep, quotes));
        assert(init.push(entry.last()) =~= entry);
        assert(seq![init].update(0, init.push(entry.last())) =~= seq![entry]);
    } else {
        assert(entry =~= Seq::empty());
    }
}

/// A separator outside any quoted region cuts the text in two: the entries
/// of the whole are those of the part before it, then those of the part
/// after it.
pub proof fn split_at_separator(head: Seq<u8>, tail: Seq<u8>, sep: u8, quotes: bool)
    requires
        quotes ==> !in_quote(head) && sep != QUOTE,
    ensures
        split_paths(head + seq![sep] + tail, sep, quotes) == split_paths(head, sep, quotes)
            + split_paths(tail, sep, quotes),
        quotes ==> in_quote(head + seq![sep] + tail) == in_quote(tail),
    decreases tail.len(),
{
    let text = head + seq![sep] + tail;
    if tail.len() == 0 {
        assert(text.drop_last() =~= head);
        assert(split_paths(head, sep, quotes).push(Seq::empty()) =~= split_paths(
            head,
            sep,
            quotes,
        ) + split_paths(tail, sep, quotes));
    } else {
        let shorter = tail.drop_last();
        assert(text.drop_last() =~= head + seq![sep] + shorter);
        split_at_separator(head, shorter, sep, quotes);
        split_is_nonempty(shorter, sep, quotes);
        let front = split_paths(head, sep, quotes);
        let back = split_paths(shorter, sep, quotes);
        let byte = tail.last();
        assert(text.last() == byte);
        if quotes && byte == QUOTE {
        } else if byte == sep && !(quotes && in_quote(shorter)) {
            assert((front + back).push(Seq::empty()) =~= front + back.push(Seq::empty()));
        } else {
            assert((front + back).update(
                (front + back).len() - 1,
                (front + back).last().push(byte),
            ) =~= front + back.update(back.len() - 1, back.last().push(byte)));
        }
    }
}

/// Putting an entry in front of a list that is not empty puts it, and a
/// separator, in front of the joined text.
pub proof fn join_with_front(first: Seq<u8>, rest: Seq<Seq<u8>>, sep: u8)
    requires
        rest.len() >= 1,
    ensures
        join_paths(seq![first] + rest, sep) == first + seq![sep] + join_paths(rest, sep),
    decreases rest.len(),
{
    let all = seq![first] + rest;
    assert(all.drop_last() =~= seq![first] + rest.drop_last());
    assert(all.last() == rest.last());
    if rest.len() == 1 {
        assert(all.drop_last() =~= seq![first]);
        assert(join_paths(all.drop_last(), sep) == first);
    } else {
        join_with_front(first, rest.drop_last(), sep);
        assert(first + seq![sep] + join_paths(rest.drop_last(), sep) + seq![sep] + rest.last()
            =~= first + seq![sep] + (join_paths(rest.drop_last(), sep) + seq![sep] + rest.last()));
    }
}

/// Splitting undoes joining: a list of plain entries that is not empty comes
/// back from its joined text unchanged.
pub proof fn split_of_join(paths: Seq<Seq<u8>>, sep: u8, quotes: bool)
    requires
        paths.len() >= 1,
        quotes ==> sep != QUOTE,
        forall|i: int| 0 <= i < paths.len() ==> is_plain(#[trigger] paths[i], sep, quotes),
    ensures
        split_paths(join_paths(paths, sep), sep, quotes) == paths,
        quotes ==> !in_quote(join_paths(paths, sep)),
    decreases paths.len(),
{
    if paths.len() == 1 {
        split_of_plain(paths[0], sep, quotes);
        assert(seq![paths[0]] =~= paths);
    } else {
        let init = paths.drop_last();
        assert forall|i: int| 0 <= i < init.len() implies is_plain(
            #[trigger] init[i],
            sep,
            quotes,
        ) by {
            assert(init[i] == paths[i]);
        }
        split_of_join(init, sep, quotes);
        split_of_plain(paths.last(), sep, quotes);
        split_at_separator(join_paths(init, sep), paths.last(), sep, quotes);
        assert(init + seq![paths.last()] =~= paths);
    }
}

/// Where no quote opens a region, no entry of a split holds a separator: on
/// a platform without quoting every entry is plain, and on one with quoting
/// every entry of text that holds no double quote.
pub proof fn split_entries_are_plain(text: Seq<u8>, sep: u8, quotes: bool)
    requires
        quotes ==> forall|i: int| 0 <= i < text.len() ==> #[trigger] text[i] != QUOTE,
    ensures
        forall|i: int|
            0 <= i < split_paths(text, sep, quotes).len() ==> is_plain(
                #[trigger] split_paths(text, sep, quotes)[i],
                sep,
                quotes,
            ),
    decreases text.len(),
{
    if text.len() > 0 {
        let init = text.drop_last();
        if quotes {
            assert forall|i: int| 0 <= i < init.len() implies #[trigger] init[i] != QUOTE by {
                assert(init[i] == text[i]);
            }
        }
        split_entries_are_plain(init, sep, quotes);
        split_is_nonempty(init, sep, quotes);
        let before = split_paths(init, sep, quotes);
        let byte = text.last();
        assert(byte == text[text.len() - 1]);
        let after = split_paths(text, sep, quotes);
        assert forall|i: int| 0 <= i < after.len() implies is_plain(
            #[trigger] after[i],
            sep,
            quotes,
        ) by {
            if i < before.len() - 1 {
                assert(after[i] == before[i]);
            } else if byte == sep {
                if quotes {
                    quote_free_is_outside(init);
                }
                if i < before.len() {
                    assert(after[i] == before[i]);
                }
            } else {
                assert(is_plain(before[i], sep, quotes));
                assert(after[i] == before[i].push(byte));
                assert forall|k: int| 0 <= k < after[i].len() implies is_plain_byte(
                    #[trigger] after[i][k],
                    sep,
                    quotes,
                ) by {
                    if k < before[i].len() {
                        assert(after[i][k] == before[i][k]);
                    }
                }
            }
        }
    }
}

/// Text without a double quote ends outside any quoted region.
pub proof fn quote_free_is_outside(text: Seq<u8>)
    requires
        forall|i: int| 0 <= i < text.len() ==> #[trigger] text[i] != QUOTE,
    ensures
        !in_quote(text),
    decreases text.len(),
{
    if text.len() > 0 {
        let init = text.drop_last();
        assert forall|i: int| 0 <= i < init.len() implies #[trigger] init[i] != QUOTE by {
            assert(init[i] == text[i]);
        }
        quote_free_is_outside(init);
        assert(text.last() == text[text.len() - 1]);
    }
}

/// Adding a byte to the last entry of a list adds it to the joined text.
pub proof fn join_with_longer_last(paths: Seq<Seq<u8>>, byte: u8, sep: u8)
    requires
        paths.len() >= 1,
    ensures
        join_paths(paths.update(paths.len() - 1, paths.last().push(byte)), sep) == join_paths(
            paths,
            sep,
        ).push(byte),
{
    let longer = paths.update(paths.len() - 1, paths.last().push(byte));
    if paths.len() > 1 {
        assert(longer.drop_last() =~= paths.drop_last());
        assert(join_paths(paths.drop_last(), sep) + seq![sep] + paths.last().push(byte)
            =~= (join_paths(paths.drop_last(), sep) + seq![sep] + paths.last()).push(byte));
    }
}

/// Joining undoes splitting: where quotes are ordinary bytes, the entries of
/// a text joined again are the text.
pub proof fn join_of_split(text: Seq<u8>, sep: u8)
    ensures
        join_paths(split_paths(text, sep, false), sep) == text,
    decreases text.len(),
{
    if text.len() == 0 {
        assert(text =~= Seq::empty());
    } else {
        let init = text.drop_last();
        let before = split_paths(init, sep, false);
        join_of_split(init, sep);
        split_is_nonempty(init, sep, false);
        if text.last() == sep {
            assert(before.push(Seq::empty()).drop_last() =~= before);
            assert(init + seq![sep] + Seq::<u8>::empty() =~= text);
        } else {
            join_with_longer_last(before, text.last(), sep);
            assert(init.push(text.last()) =~= text);
        }
    }
}

/// On a platform without quoting, putting an entry in front of a variable
/// that is set leaves the variable's text as it was, behind the entry and a
/// separator.
pub proof fn prepend_keeps_text(platform: Platform, path: Seq<u8>, text: Seq<u8>)
    requires
        !platform.quotes(),
    ensures
        prepended(platform, path, Some(text)) == path + seq![platform.separator_byte()] + text,
{
    let sep = platform.separator_byte();
    split_is_nonempty(text, sep, false);
    join_with_front(path, split_paths(text, sep, false), sep);
    join_of_split(text, sep);
}

/// Joining no entry gives empty text, joining one entry gives that entry,
/// and joining two gives the first, the separator and the second.
pub proof fn join_of_few(first: Seq<u8>, second: Seq<u8>, sep: u8)
    ensures
        join_paths(Seq::empty(), sep) == Seq::<u8>::empty(),
        join_paths(seq![first], sep) == first,
        join_paths(seq![first, second], sep) == first + seq![sep] + second,
{
    assert(seq![first, second].drop_last() =~= seq![first]);
    assert(join_paths(seq![first], sep) == first);
}

/// An unset variable is an empty search path.
pub proof fn unset_is_empty(platform: Platform)
    ensures
        search_list(platform, None) == Seq::<Seq<u8>>::empty(),
{
}

/// After a plain entry has been put in front, the search path read back
/// from the new text is that entry followed by the entries that were there
/// before, in their order. The entries that were there must be plain too:
/// a separator inside one of them would cut it in two.
pub proof fn prepend_then_search(platform: Platform, path: Seq<u8>, variable: Option<Seq<u8>>)
    requires
        is_plain(path, platform.separator_byte(), platform.quotes()),
        forall|i: int|
            0 <= i < search_list(platform, variable).len() ==> is_plain(
                #[trigger] search_list(platform, variable)[i],
                platform.separator_byte(),
                platform.quotes(),
            ),
    ensures
        search_list(platform, Some(prepended(platform, path, variable))) == seq![path]
            + search_list(platform, variable),
{
    let all = seq![path] + search_list(platform, variable);
    assert forall|i: int| 0 <= i < all.len() implies is_plain(
        #[trigger] all[i],
        platform.separator_byte(),
        platform.quotes(),
    ) by {
        if i > 0 {
            assert(all[i] == search_list(platform, variable)[i - 1]);
        }
    }
    split_of_join(all, platform.separator_byte(), platform.quotes());
}

/// The entries read from a variable are plain on every platform without
/// quoting, and on one with quoting where the text holds no double quote.
pub proof fn search_entries_are_plain(platform: Platform, variable: Option<Seq<u8>>)
    requires
        platform.quotes() && variable is Some ==> forall|i: int|
            0 <= i < variable->Some_0.len() ==> #[trigger] variable->Some_0[i] != QUOTE,
    ensures
        forall|i: int|
            0 <= i < search_list(platform, variable).len() ==> is_plain(
                #[trigger] search_list(platform, variable)[i],
                platform.separator_byte(),
                platform.quotes(),
            ),
{
    if let Some(text) = variable {
        split_entries_are_plain(text, platform.separator_byte(), platform.quotes());
    }
}

fn append_bytes(target: &mut Vec<u8>, bytes: &[u8])
    ensures
        final(target)@ == old(target)@ + bytes@,
{
    let mut i: usize = 0;
    while i < bytes.len()
        invariant
            i <= bytes.len(),
            target@ == old(target)@ + bytes@.take(i as int),
        decreases bytes.len() - i,
    {
        target.push(bytes[i]);
        i += 1;
        assert(bytes@.take(i as int) =~= bytes@.take(i as int - 1).push(bytes@[i as int - 1]));
    }
    assert(bytes@.take(i as int) =~= bytes@);
}

impl DynamicLibrary {
    /// Joins the entries of a search path into the text of the platform's
    /// variable.
    pub fn create_path(platform: Platform, path: &[Vec<u8>]) -> (newvar: Vec<u8>)
        ensures
            newvar@ == join_paths(listed(path@), platform.separator_byte()),
    {
        let sep = platform.separator();
        let mut newvar: Vec<u8> = Vec::new();
        let mut i: usize = 0;
        while i < path.len()
            invariant
                i <= path.len(),
                sep == platform.separator_byte(),
                newvar@ == join_paths(listed(path@).take(i as int), sep),
            decreases path.len() - i,
        {
            if i > 0 {
                newvar.push(sep);
            }
            append_bytes(&mut newvar, path[i].as_slice());
            i += 1;
            proof {
                let now = listed(path@).take(i as int);
                assert(now.drop_last() =~= listed(path@).take(i as int - 1));
                assert(now.last() == path@[i as int - 1]@);
            }
        }
        assert(listed(path@).take(i as int) =~= listed(path@));
        newvar
    }

    /// The search path that the platform's variable holds, given the
    /// variable's text, or `None` where it is unset. An unset variable is an
    /// empty search path.
    pub fn search_path(platform: Platform, variable: Option<&[u8]>) -> (list: Vec<Vec<u8>>)
        ensures
            listed(list@) == search_list(platform, text_of(variable)),
            variable is None ==> list@.len() == 0,
    {
        let mut list: Vec<Vec<u8>> = Vec::new();
        let text = match variable {
            None => {
                assert(listed(list@) =~= Seq::empty());
                return list;
            },
            Some(text) => text,
        };
        let sep = platform.separator();
        let quotes = platform.is_windows();
        let mut entry: Vec<u8> = Vec::new();
        let mut quoted = false;
        let mut i: usize = 0;
        assert(listed(list@).push(entry@) =~= split_paths(text@.take(0), sep, quotes));
        while i < text.len()
            invariant
                i <= text.len(),
                quotes ==> quoted == in_quote(text@.take(i as int)),
                listed(list@).push(entry@) == split_paths(text@.take(i as int), sep, quotes),
            decreases text.len() - i,
        {
            let byte = text[i];
            proof {
                assert(text@.take(i as int + 1).drop_last() =~= text@.take(i as int));
                assert(text@.take(i as int + 1).last() == byte);
            }
            let ghost before = listed(list@).push(entry@);
            if quotes && byte == QUOTE {
                quoted = !quoted;
            } else if byte == sep && !(quotes && quoted) {
                list.push(entry);
                entry = Vec::new();
                assert(listed(list@).push(entry@) =~= before.push(Seq::empty()));
            } else {
                entry.push(byte);
                assert(listed(list@).push(entry@) =~= before.update(
                    before.len() - 1,
                    before.last().push(byte),
                ));
            }
            i += 1;
        }
        assert(text@.take(i as int) =~= text@);
        let ghost before = listed(list@).push(entry@);
        list.push(entry);
        assert(listed(list@) =~= before);
        list
    }

    /// The text to store in the platform's variable so that `path` comes
    /// first in the search path and the entries of `variable` follow it.
    pub fn prepend_search_path(platform: Platform, path: &[u8], variable: Option<&[u8]>) -> (newvar:
        Vec<u8>)
        ensures
            newvar@ == prepended(platform, path@, text_of(variable)),
    {
        let mut search_path = DynamicLibrary::search_path(platform, variable);
        let ghost rest = listed(search_path@);
        let mut first: Vec<u8> = Vec::new();
        append_bytes(&mut first, path);
        search_path.insert(0, first);
        assert(listed(search_path@) =~= seq![path@] + rest);
        DynamicLibrary::create_path(platform, search_path.as_slice())
    }
}

} // verus!
