//! Tag filtering: a filter is `*` (keep every tag), empty (keep none), or a
//! comma-separated list of prefixes, of which a kept tag starts with one.

use vstd::prelude::*;

use crate::text::{
    chars_of, split_chars, split_on, starts_with_chars, strings, trim_chars, trimmed, views,
};

verus! {

/// The prefixes that a filter lists: its comma-separated pieces, trimmed.
pub open spec fn prefixes_of(filter: Seq<char>) -> Seq<Seq<char>> {
    split_on(filter, ',').map_values(|p: Seq<char>| trimmed(p))
}

/// Whether `tag` starts with one of `prefixes`.
pub open spec fn matches_any(tag: Seq<char>, prefixes: Seq<Seq<char>>) -> bool {
    exists|i: int| 0 <= i < prefixes.len() && (#[trigger] prefixes[i]).is_prefix_of(tag)
}

/// The tags that start with one of `prefixes`, in their order.
pub open spec fn keep_matching(tags: Seq<Seq<char>>, prefixes: Seq<Seq<char>>) -> Seq<Seq<char>>
    decreases tags.len(),
{
    if tags.len() == 0 {
        Seq::<Seq<char>>::empty()
    } else {
        let r = keep_matching(tags.drop_last(), prefixes);
        if matches_any(tags.last(), prefixes) {
            r.push(tags.last())
        } else {
            r
        }
    }
}

/// Whether a filter is the one that keeps everything.
pub open spec fn keeps_all(filter: Seq<char>) -> bool {
    filter == seq!['*']
}

/// The tags that `filter` keeps, in their order.
pub open spec fn filtered_tags(tags: Seq<Seq<char>>, filter: Seq<char>) -> Seq<Seq<char>> {
    if keeps_all(filter) {
        tags
    } else if filter.len() == 0 {
        Seq::<Seq<char>>::empty()
    } else {
        keep_matching(tags, prefixes_of(filter))
    }
}

/// Splits a filter into its trimmed prefixes.
pub fn tag_prefixes(filter: &Vec<char>) -> (r: Vec<Vec<char>>)
    ensures
        views(r@) == prefixes_of(filter@),
{
    let pieces = split_chars(filter, ',');
    let mut r: Vec<Vec<char>> = Vec::new();
    let mut i: usize = 0;
    while i < pieces.len()
        invariant
            i <= pieces@.len(),
            views(pieces@) == split_on(filter@, ','),
            views(r@) == views(pieces@).take(i as int).map_values(|p: Seq<char>| trimmed(p)),
        decreases pieces@.len() - i,
    {
        let piece = trim_chars(&pieces[i]);
        assert(views(pieces@)[i as int] == pieces@[i as int]@);
        let ghost before = r@;
        let ghost pv = piece@;
        r.push(piece);
        assert(views(r@) =~= views(before).push(pv));
        assert(views(pieces@).take(i + 1) =~= views(pieces@).take(i as int).push(
            views(pieces@)[i as int],
        ));
        i = i + 1;
        assert(views(r@) =~= views(pieces@).take(i as int).map_values(
            |p: Seq<char>| trimmed(p),
        ));
    }
    assert(views(pieces@).take(pieces@.len() as int) =~= views(pieces@));
    r
}

/// Whether `tag` starts with one of `prefixes`.
pub fn matches_prefixes(tag: &Vec<char>, prefixes: &Vec<Vec<char>>) -> (r: bool)
    ensures
        r == matches_any(tag@, views(prefixes@)),
{
    let mut i: usize = 0;
    while i < prefixes.len()
        invariant
            i <= prefixes@.len(),
            forall|j: int| 0 <= j < i ==> !(#[trigger] views(prefixes@)[j]).is_prefix_of(tag@),
        decreases prefixes@.len() - i,
    {
        if starts_with_chars(tag, &prefixes[i]) {
            assert(views(prefixes@)[i as int] == prefixes@[i as int]@);
            return true;
        }
        assert(views(prefixes@)[i as int] == prefixes@[i as int]@);
        i = i + 1;
    }
    false
}

/// A copy of a list of strings.
pub fn copy_strings(v: &Vec<String>) -> (r: Vec<String>)
    ensures
        strings(r@) == strings(v@),
{
    let mut r: Vec<String> = Vec::new();
    let mut i: usize = 0;
    while i < v.len()
        invariant
            i <= v@.len(),
            strings(r@) == strings(v@).take(i as int),
        decreases v@.len() - i,
    {
        let ghost before = r@;
        let s = v[i].as_str().to_owned();
        r.push(s);
        assert(strings(r@) =~= strings(before).push(v@[i as int]@));
        assert(strings(v@).take(i + 1) =~= strings(v@).take(i as int).push(v@[i as int]@));
        i = i + 1;
        assert(strings(r@) =~= strings(v@).take(i as int));
    }
    assert(strings(v@).take(v@.len() as int) =~= strings(v@));
    r
}

/// The tags that start with one of `prefixes`.
pub fn keep_matching_tags(tags: &Vec<String>, prefixes: &Vec<Vec<char>>) -> (r: Vec<String>)
    ensures
        strings(r@) == keep_matching(strings(tags@), views(prefixes@)),
{
    let mut r: Vec<String> = Vec::new();
    let mut i: usize = 0;
    while i < tags.len()
        invariant
            i <= tags@.len(),
            strings(r@) == keep_matching(strings(tags@).take(i as int), views(prefixes@)),
        decreases tags@.len() - i,
    {
        let tag = chars_of(tags[i].as_str());
        assert(strings(tags@).take(i + 1).drop_last() =~= strings(tags@).take(i as int));
        if matches_prefixes(&tag, prefixes) {
            r.push(tags[i].as_str().to_owned());
            assert(strings(r@) =~= keep_matching(strings(tags@).take(i as int), views(prefixes@)).push(
                tags@[i as int]@,
            ));
        }
        i = i + 1;
    }
    assert(strings(tags@).take(tags@.len() as int) =~= strings(tags@));
    r
}

/// Whether `filter` is `*`.
fn is_star(filter: &Vec<char>) -> (r: bool)
    ensures
        r == keeps_all(filter@),
{
    let r = filter.len() == 1 && filter[0] == '*';
    assert(r ==> filter@ =~= seq!['*']);
    r
}

/// Keeps the tags that `filter` admits, in their order: all of them for `*`,
/// none for an empty filter, else those that start with one of its prefixes.
pub fn filter_tags(tags: &Vec<String>, filter: &str) -> (r: Vec<String>)
    ensures
        strings(r@) == filtered_tags(strings(tags@), filter@),
{
    let f = chars_of(filter);
    if is_star(&f) {
        copy_strings(tags)
    } else if f.len() == 0 {
        Vec::new()
    } else {
        let prefixes = tag_prefixes(&f);
        keep_matching_tags(tags, &prefixes)
    }
}

// ---------------------------------------------------------------------------
// Tags grouped by source

/// The character sequences of a list of (source, tags) entries.
pub open spec fn entry_views(m: Seq<(String, Vec<String>)>) -> Seq<(Seq<char>, Seq<Seq<char>>)> {
    m.map_values(|e: (String, Vec<String>)| (e.0@, strings(e.1@)))
}

/// The entries whose tags keep at least one match, each with the matches only.
pub open spec fn keep_entries(
    entries: Seq<(Seq<char>, Seq<Seq<char>>)>,
    prefixes: Seq<Seq<char>>,
) -> Seq<(Seq<char>, Seq<Seq<char>>)>
    decreases entries.len(),
{
    if entries.len() == 0 {
        Seq::<(Seq<char>, Seq<Seq<char>>)>::empty()
    } else {
        let r = keep_entries(entries.drop_last(), prefixes);
        let kept = keep_matching(entries.last().1, prefixes);
        if kept.len() > 0 {
            r.push((entries.last().0, kept))
        } else {
            r
        }
    }
}

/// What filtering grouped tags gives: the entries unchanged for `*`, nothing
/// for an empty filter, else the entries that keep a match.
pub open spec fn filtered_entries(
    entries: Option<Seq<(Seq<char>, Seq<Seq<char>>)>>,
    filter: Seq<char>,
) -> Option<Seq<(Seq<char>, Seq<Seq<char>>)>> {
    if keeps_all(filter) {
        entries
    } else if filter.len() == 0 {
        None
    } else {
        match entries {
            Some(es) => Some(keep_entries(es, prefixes_of(filter))),
            None => None,
        }
    }
}

/// The view of an optional list of entries.
pub open spec fn opt_entry_views(m: Option<Vec<(String, Vec<String>)>>) -> Option<
    Seq<(Seq<char>, Seq<Seq<char>>)>,
> {
    match m {
        Some(v) => Some(entry_views(v@)),
        None => None,
    }
}

/// Copies each entry, keeping only the tags that start with one of
/// `prefixes`, and drops entries left with no tag. With `prefixes` absent,
/// every entry is copied whole.
fn select_entries(
    entries: &Vec<(String, Vec<String>)>,
    prefixes: Option<&Vec<Vec<char>>>,
) -> (r: Vec<(String, Vec<String>)>)
    ensures
        prefixes matches Some(p) ==> entry_views(r@) == keep_entries(
            entry_views(entries@),
            views(p@),
        ),
        prefixes is None ==> entry_views(r@) == entry_views(entries@),
{
    let mut r: Vec<(String, Vec<String>)> = Vec::new();
    let mut i: usize = 0;
    while i < entries.len()
        invariant
            i <= entries@.len(),
            prefixes matches Some(p) ==> entry_views(r@) == keep_entries(
                entry_views(entries@).take(i as int),
                views(p@),
            ),
            prefixes is None ==> entry_views(r@) == entry_views(entries@).take(i as int),
        decreases entries@.len() - i,
    {
        let source = &entries[i].0;
        let tags = &entries[i].1;
        assert(entry_views(entries@).take(i + 1).drop_last() =~= entry_views(entries@).take(
            i as int,
        ));
        assert(entry_views(entries@)[i as int] == (source@, strings(tags@)));
        match prefixes {
            Some(p) => {
                let kept = keep_matching_tags(tags, p);
                if kept.len() > 0 {
                    let ghost before = entry_views(r@);
                    r.push((source.as_str().to_owned(), kept));
                    assert(entry_views(r@) =~= before.push((source@, strings(kept@))));
                }
            },
            None => {
                r.push((source.as_str().to_owned(), copy_strings(tags)));
                assert(entry_views(r@) =~= entry_views(entries@).take(i + 1));
            },
        }
        i = i + 1;
    }
    assert(entry_views(entries@).take(entries@.len() as int) =~= entry_views(entries@));
    r
}

/// Filters tags grouped by source: a copy for `*`, nothing for an empty
/// filter, else each source's matching tags, sources left empty dropped.
pub fn filter_tags_map(tags_map: Option<&Vec<(String, Vec<String>)>>, filter: &str) -> (r: Option<
    Vec<(String, Vec<String>)>,
>)
    ensures
        opt_entry_views(r) == filtered_entries(
            match tags_map {
                Some(m) => Some(entry_views(m@)),
                None => None,
            },
            filter@,
        ),
{
    let f = chars_of(filter);
    if f.len() == 0 && !is_star(&f) {
        return None;
    }
    match tags_map {
        None => None,
        Some(m) => {
            if is_star(&f) {
                Some(select_entries(m, None))
            } else {
                let prefixes = tag_prefixes(&f);
                Some(select_entries(m, Some(&prefixes)))
            }
        },
    }
}

} // verus!
