//! MQTT topic-filter matching (`+` = one level, `#` = rest of topic).

use vstd::prelude::*;

verus! {

/// The levels of a topic or filter: the pieces between its `/` separators.
/// A string without `/` has one level; the empty string has one empty level.
pub open spec fn levels_of(s: Seq<char>) -> Seq<Seq<char>>
    decreases s.len(),
{
    if s.len() == 0 {
        seq![Seq::<char>::empty()]
    } else {
        let init = levels_of(s.drop_last());
        if s.last() == '/' {
            init.push(Seq::<char>::empty())
        } else {
            init.update(init.len() - 1, init.last().push(s.last()))
        }
    }
}

/// The single-level wildcard `+`.
pub open spec fn single_wildcard() -> Seq<char> {
    seq!['+']
}

/// The multi-level wildcard `#`.
pub open spec fn multi_wildcard() -> Seq<char> {
    seq!['#']
}

/// Whether the filter levels `f` match the topic levels `t`: level by level,
/// `+` matches any one level, `#` matches everything that remains (including
/// nothing), and any other level matches only an equal level.
pub open spec fn levels_match(f: Seq<Seq<char>>, t: Seq<Seq<char>>) -> bool
    decreases f.len(),
{
    if f.len() == 0 {
        t.len() == 0
    } else if f[0] == multi_wildcard() {
        true
    } else if t.len() == 0 {
        false
    } else {
        (f[0] == single_wildcard() || f[0] == t[0]) && levels_match(f.drop_first(), t.drop_first())
    }
}

/// Whether the topic filter `filter` matches the topic `topic`.
pub open spec fn spec_topic_matches(filter: Seq<char>, topic: Seq<char>) -> bool {
    levels_match(levels_of(filter), levels_of(topic))
}

/// A string always has at least one level.
pub proof fn lemma_levels_nonempty(s: Seq<char>)
    ensures
        levels_of(s).len() >= 1,
    decreases s.len(),
{
    if s.len() > 0 {
        lemma_levels_nonempty(s.drop_last());
    }
}

/// A string without `/` is a single level.
pub proof fn lemma_levels_single(s: Seq<char>)
    requires
        !s.contains('/'),
    ensures
        levels_of(s) == seq![s],
    decreases s.len(),
{
    if s.len() > 0 {
        let init = s.drop_last();
        assert(!init.contains('/')) by {
            if init.contains('/') {
                let k = choose|k: int| 0 <= k < init.len() && init[k] == '/';
                assert(s[k] == '/');
            }
        }
        lemma_levels_single(init);
        assert(s.last() != '/') by {
            assert(s[s.len() - 1] == s.last());
        }
        assert(init.push(s.last()) =~= s);
        assert(levels_of(s) =~= seq![s]);
    } else {
        assert(s =~= Seq::<char>::empty());
    }
}

/// Joining two strings with `/` concatenates their levels.
pub proof fn lemma_levels_join(a: Seq<char>, b: Seq<char>)
    ensures
        levels_of(a + seq!['/'] + b) == levels_of(a) + levels_of(b),
    decreases b.len(),
{
    let s = a + seq!['/'] + b;
    lemma_levels_nonempty(a);
    if b.len() == 0 {
        assert(s.drop_last() =~= a);
        assert(levels_of(a) + levels_of(b) =~= levels_of(a).push(Seq::<char>::empty()));
    } else {
        let b0 = b.drop_last();
        lemma_levels_join(a, b0);
        lemma_levels_nonempty(b0);
        assert(s.drop_last() =~= a + seq!['/'] + b0);
        assert(s.last() == b.last());
        let la = levels_of(a);
        let lb0 = levels_of(b0);
        if b.last() == '/' {
            assert((la + lb0).push(Seq::<char>::empty()) =~= la + lb0.push(Seq::<char>::empty()));
        } else {
            let init = la + lb0;
            assert(init.last() == lb0.last());
            assert(init.update(init.len() - 1, init.last().push(b.last())) =~= la + lb0.update(
                lb0.len() - 1,
                lb0.last().push(b.last()),
            ));
        }
    }
}

/// Three levels joined with `/`.
pub proof fn lemma_levels3(a: Seq<char>, b: Seq<char>, c: Seq<char>)
    requires
        !a.contains('/'),
        !b.contains('/'),
        !c.contains('/'),
    ensures
        levels_of(a + seq!['/'] + b + seq!['/'] + c) == seq![a, b, c],
{
    lemma_levels_join(a + seq!['/'] + b, c);
    lemma_levels_join(a, b);
    lemma_levels_single(a);
    lemma_levels_single(b);
    lemma_levels_single(c);
    assert(seq![a] + seq![b] + seq![c] =~= seq![a, b, c]);
}

/// Two levels joined with `/`.
pub proof fn lemma_levels2(a: Seq<char>, b: Seq<char>)
    requires
        !a.contains('/'),
        !b.contains('/'),
    ensures
        levels_of(a + seq!['/'] + b) == seq![a, b],
{
    lemma_levels_join(a, b);
    lemma_levels_single(a);
    lemma_levels_single(b);
    assert(seq![a] + seq![b] =~= seq![a, b]);
}

/// Whether no level of `f` is a wildcard.
pub open spec fn no_wildcards(f: Seq<Seq<char>>) -> bool {
    forall|i: int| 0 <= i < f.len() ==> #[trigger] f[i] != single_wildcard() && f[i] != multi_wildcard()
}

/// Whether no level of `f` is the multi-level wildcard.
pub open spec fn no_multi_wildcard(f: Seq<Seq<char>>) -> bool {
    forall|i: int| 0 <= i < f.len() ==> #[trigger] f[i] != multi_wildcard()
}

/// A filter without `#` only matches topics with as many levels as it has.
pub proof fn lemma_match_same_length(f: Seq<Seq<char>>, t: Seq<Seq<char>>)
    requires
        no_multi_wildcard(f),
        levels_match(f, t),
    ensures
        f.len() == t.len(),
    decreases f.len(),
{
    if f.len() > 0 {
        assert(f[0] != multi_wildcard());
        assert(no_multi_wildcard(f.drop_first())) by {
            assert forall|i: int| 0 <= i < f.drop_first().len() implies #[trigger] f.drop_first()[i]
                != multi_wildcard() by {
                assert(f.drop_first()[i] == f[i + 1]);
            }
        }
        lemma_match_same_length(f.drop_first(), t.drop_first());
    }
}

/// The multi-level wildcard `#` alone matches every topic.
pub proof fn law_multi_wildcard_matches_all(topic: Seq<char>)
    ensures
        spec_topic_matches(multi_wildcard(), topic),
{
    assert(!multi_wildcard().contains('/')) by {
        if multi_wildcard().contains('/') {
            let k = choose|k: int| 0 <= k < multi_wildcard().len() && multi_wildcard()[k] == '/';
        }
    }
    lemma_levels_single(multi_wildcard());
    assert(levels_of(multi_wildcard())[0] == multi_wildcard());
}

/// A filter without wildcards matches exactly the topics with the same levels.
pub proof fn law_plain_filter_matches_only_itself(f: Seq<Seq<char>>, t: Seq<Seq<char>>)
    requires
        no_wildcards(f),
    ensures
        levels_match(f, t) <==> f == t,
    decreases f.len(),
{
    if f.len() == 0 {
        if t.len() == 0 {
            assert(f =~= t);
        }
    } else {
        let fr = f.drop_first();
        assert(no_wildcards(fr)) by {
            assert forall|i: int| 0 <= i < fr.len() implies #[trigger] fr[i] != single_wildcard()
                && fr[i] != multi_wildcard() by {
                assert(fr[i] == f[i + 1]);
            }
        }
        assert(f[0] != single_wildcard() && f[0] != multi_wildcard());
        if t.len() > 0 {
            law_plain_filter_matches_only_itself(fr, t.drop_first());
            if f[0] == t[0] && fr == t.drop_first() {
                assert forall|i: int| 0 <= i < f.len() implies f[i] == t[i] by {
                    if i > 0 {
                        assert(f[i] == fr[i - 1]);
                        assert(t[i] == t.drop_first()[i - 1]);
                    }
                }
                assert(f =~= t);
            }
            if f == t {
                assert(fr =~= t.drop_first());
            }
        }
    }
}

/// Levels joined back with `/` between them.
pub open spec fn join_levels(levels: Seq<Seq<char>>) -> Seq<char>
    decreases levels.len(),
{
    if levels.len() <= 1 {
        if levels.len() == 1 {
            levels[0]
        } else {
            Seq::empty()
        }
    } else {
        join_levels(levels.drop_last()) + seq!['/'] + levels.last()
    }
}

/// Extending the last level extends the joined string.
proof fn lemma_join_extend_last(levels: Seq<Seq<char>>, c: char)
    requires
        levels.len() >= 1,
    ensures
        join_levels(levels.update(levels.len() - 1, levels.last().push(c))) == join_levels(levels).push(c),
{
    let upd = levels.update(levels.len() - 1, levels.last().push(c));
    if levels.len() > 1 {
        assert(upd.drop_last() =~= levels.drop_last());
        assert(upd.last() == levels.last().push(c));
        assert(join_levels(upd) =~= join_levels(levels).push(c));
    }
}

/// Joining the levels of a string gives the string back.
pub proof fn lemma_join_levels(s: Seq<char>)
    ensures
        join_levels(levels_of(s)) == s,
    decreases s.len(),
{
    if s.len() == 0 {
        assert(join_levels(levels_of(s)) =~= s);
    } else {
        let init = s.drop_last();
        lemma_join_levels(init);
        lemma_levels_nonempty(init);
        let li = levels_of(init);
        if s.last() == '/' {
            let l = li.push(Seq::<char>::empty());
            assert(l.drop_last() =~= li);
            assert(join_levels(l) =~= init + seq!['/']);
            assert(init + seq!['/'] =~= s);
        } else {
            lemma_join_extend_last(li, s.last());
            assert(init.push(s.last()) =~= s);
        }
    }
}

/// Different strings have different levels.
pub proof fn lemma_levels_injective(a: Seq<char>, b: Seq<char>)
    requires
        levels_of(a) == levels_of(b),
    ensures
        a == b,
{
    lemma_join_levels(a);
    lemma_join_levels(b);
}

/// A topic filter without wildcards matches exactly the topic it spells.
pub proof fn law_plain_filter_matches_exactly(filter: Seq<char>, topic: Seq<char>)
    requires
        no_wildcards(levels_of(filter)),
    ensures
        spec_topic_matches(filter, topic) <==> filter == topic,
{
    law_plain_filter_matches_only_itself(levels_of(filter), levels_of(topic));
    if levels_of(filter) == levels_of(topic) {
        lemma_levels_injective(filter, topic);
    }
}

/// The characters of a string slice, in order.
pub fn chars_of(s: &str) -> (res: Vec<char>)
    ensures
        res@ == s@,
{
    let n = s.unicode_len();
    let mut res: Vec<char> = Vec::new();
    let mut i: usize = 0;
    while i < n
        invariant
            n == s@.len(),
            i <= n,
            res@ == s@.take(i as int),
        decreases n - i,
    {
        let c = s.get_char(i);
        res.push(c);
        i = i + 1;
        assert(res@ =~= s@.take(i as int));
    }
    assert(s@.take(n as int) =~= s@);
    res
}

/// The character sequences of a list of levels.
pub open spec fn level_views(v: Seq<Vec<char>>) -> Seq<Seq<char>> {
    Seq::new(v.len(), |i: int| v[i]@)
}

/// Split a sequence of characters into its `/`-separated levels.
pub fn split_levels(chars: &Vec<char>) -> (res: Vec<Vec<char>>)
    ensures
        level_views(res@) == levels_of(chars@),
{
    let mut levels: Vec<Vec<char>> = Vec::new();
    let mut cur: Vec<char> = Vec::new();
    let mut i: usize = 0;
    assert(chars@.take(0) =~= Seq::<char>::empty());
    assert(level_views(levels@).push(cur@) =~= levels_of(chars@.take(0)));
    while i < chars.len()
        invariant
            i <= chars.len(),
            level_views(levels@).push(cur@) == levels_of(chars@.take(i as int)),
        decreases chars.len() - i,
    {
        let c = chars[i];
        let ghost prev = chars@.take(i as int);
        let ghost old_levels = level_views(levels@);
        let ghost old_cur = cur@;
        assert(chars@.take(i + 1).drop_last() =~= prev);
        assert(chars@.take(i + 1).last() == c);
        if c == '/' {
            let done = cur;
            levels.push(done);
            cur = Vec::new();
            assert(level_views(levels@) =~= old_levels.push(old_cur));
        } else {
            cur.push(c);
            assert(level_views(levels@) =~= old_levels);
            assert(old_levels.push(cur@) =~= old_levels.push(old_cur).update(
                old_levels.len() as int,
                old_cur.push(c),
            ));
        }
        i = i + 1;
    }
    assert(chars@.take(chars.len() as int) =~= chars@);
    let ghost before = level_views(levels@);
    let last = cur;
    levels.push(last);
    assert(level_views(levels@) =~= before.push(last@));
    levels
}

/// Whether two levels hold the same characters.
fn same_level(a: &Vec<char>, b: &Vec<char>) -> (res: bool)
    ensures
        res == (a@ == b@),
{
    if a.len() != b.len() {
        return false;
    }
    let mut i: usize = 0;
    while i < a.len()
        invariant
            a.len() == b.len(),
            i <= a.len(),
            forall|j: int| 0 <= j < i ==> a@[j] == b@[j],
        decreases a.len() - i,
    {
        if a[i] != b[i] {
            return false;
        }
        i = i + 1;
    }
    assert(a@ =~= b@);
    true
}

/// Whether a level is the single character `c`.
fn is_wildcard(level: &Vec<char>, c: char) -> (res: bool)
    ensures
        res == (level@ == seq![c]),
{
    if level.len() == 1 && level[0] == c {
        assert(level@ =~= seq![c]);
        true
    } else {
        false
    }
}

/// MQTT topic-filter matching (`+` = one level, `#` = rest of topic).
pub fn topic_matches(filter: &str, topic: &str) -> (res: bool)
    ensures
        res == spec_topic_matches(filter@, topic@),
{
    let filter_chars = chars_of(filter);
    let topic_chars = chars_of(topic);
    let filter_levels = split_levels(&filter_chars);
    let topic_levels = split_levels(&topic_chars);
    let ghost fl = level_views(filter_levels@);
    let ghost tl = level_views(topic_levels@);
    assert(fl.skip(0) =~= fl);
    assert(tl.skip(0) =~= tl);

    let mut i: usize = 0;
    while i < filter_levels.len()
        invariant
            fl == level_views(filter_levels@),
            tl == level_views(topic_levels@),
            fl == levels_of(filter@),
            tl == levels_of(topic@),
            i <= filter_levels.len(),
            i <= topic_levels.len(),
            levels_match(fl, tl) == levels_match(fl.skip(i as int), tl.skip(i as int)),
        decreases filter_levels.len() - i,
    {
        let f = &filter_levels[i];
        let ghost fs = fl.skip(i as int);
        let ghost ts = tl.skip(i as int);
        assert(fs[0] == fl[i as int]);
        assert(fl[i as int] == f@);
        if is_wildcard(f, '#') {
            return true;
        }
        if i >= topic_levels.len() {
            assert(ts.len() == 0);
            return false;
        }
        assert(ts[0] == tl[i as int]);
        assert(tl[i as int] == topic_levels[i as int]@);
        assert(fs.drop_first() =~= fl.skip(i + 1));
        assert(ts.drop_first() =~= tl.skip(i + 1));
        if is_wildcard(f, '+') || same_level(f, &topic_levels[i]) {
            i = i + 1;
        } else {
            return false;
        }
    }
    assert(fl.skip(i as int).len() == 0);
    filter_levels.len() == topic_levels.len()
}

} // verus!
