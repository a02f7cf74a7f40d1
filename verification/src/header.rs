//! Topic filters and the wildcard matching of topics against them.

use vstd::prelude::*;
use crate::text::{chars_eq, chars_of};

verus! {

/// A subscription: a topic pattern with the quality of service asked for.
#[derive(Debug, PartialEq, Eq)]
pub struct Header {
    pub id: String,
    pub topic: String,
    pub qos: i32,
}

/// What a [`Header`] is, field by field.
pub struct HeaderView {
    pub id: Seq<char>,
    pub topic: Seq<char>,
    pub qos: int,
}

impl View for Header {
    type V = HeaderView;

    open spec fn view(&self) -> HeaderView {
        HeaderView { id: self.id@, topic: self.topic@, qos: self.qos as int }
    }
}

impl Clone for Header {
    fn clone(&self) -> (r: Self)
        ensures
            r == *self,
    {
        Header { id: self.id.clone(), topic: self.topic.clone(), qos: self.qos }
    }
}

impl Default for Header {
    /// A filter without identifier and pattern, at quality of service 0.
    fn default() -> (r: Self)
        ensures
            r@ == (HeaderView { id: Seq::<char>::empty(), topic: Seq::<char>::empty(), qos: 0 }),
    {
        Header { id: String::new(), topic: String::new(), qos: 0 }
    }
}

/// Why a filter is refused.
#[derive(Debug, Clone, Copy, PartialEq, Eq, Structural)]
pub enum HeaderError {
    /// The pattern also covers the reserved system topic.
    ReservedTopic,
    /// The pattern is empty.
    EmptyTopic,
    /// The quality of service is not 0, 1 or 2.
    InvalidQos,
}

/// The pattern that is reserved for the system's own traffic.
pub open spec fn system_topic() -> Seq<char> {
    "system/#"@
}

/// The levels of a topic or pattern: the pieces between its `/` separators.
/// A string without `/` is one level; every `/` starts a new one, so the
/// empty string is one empty level.
pub open spec fn split_levels(s: Seq<char>) -> Seq<Seq<char>>
    decreases s.len(),
{
    if s.len() == 0 {
        seq![Seq::<char>::empty()]
    } else {
        let before = split_levels(s.drop_last());
        if s.last() == '/' {
            before.push(Seq::<char>::empty())
        } else {
            before.drop_last().push(before.last().push(s.last()))
        }
    }
}

/// The levels joined again, with one `/` between neighbours.
pub open spec fn join_levels(levels: Seq<Seq<char>>) -> Seq<char>
    decreases levels.len(),
{
    if levels.len() == 0 {
        Seq::<char>::empty()
    } else if levels.len() == 1 {
        levels[0]
    } else {
        join_levels(levels.drop_last()) + seq!['/'] + levels.last()
    }
}

/// The level `#`, which matches whatever is left of a topic.
pub open spec fn is_multi_wildcard(level: Seq<char>) -> bool {
    level == seq!['#']
}

/// The level `+`, which matches exactly one level of a topic.
pub open spec fn is_single_wildcard(level: Seq<char>) -> bool {
    level == seq!['+']
}

/// Whether the pattern levels `p` match the topic levels `t`, level by level
/// from the front.
pub open spec fn levels_match(p: Seq<Seq<char>>, t: Seq<Seq<char>>) -> bool
    decreases p.len(),
{
    if p.len() == 0 {
        t.len() == 0
    } else if is_multi_wildcard(p[0]) {
        true
    } else if t.len() == 0 {
        false
    } else if is_single_wildcard(p[0]) || p[0] == t[0] {
        levels_match(p.drop_first(), t.drop_first())
    } else {
        false
    }
}

/// Whether `pattern` matches `topic`.
pub open spec fn topic_matches(pattern: Seq<char>, topic: Seq<char>) -> bool {
    levels_match(split_levels(pattern), split_levels(topic))
}

/// The character sequences that a vector of levels holds.
pub open spec fn levels_of(v: Seq<Vec<char>>) -> Seq<Seq<char>> {
    Seq::new(v.len(), |i: int| v[i]@)
}

/// Splits a string into its levels.
pub fn split_topic(s: &str) -> (levels: Vec<Vec<char>>)
    ensures
        levels_of(levels@) == split_levels(s@),
{
    let mut done: Vec<Vec<char>> = Vec::new();
    let mut cur: Vec<char> = Vec::new();
    assert(s@.take(0) =~= Seq::<char>::empty());
    assert(levels_of(done@).push(cur@) =~= seq![Seq::<char>::empty()]);
    for c in it: s.chars()
        invariant
            it.seq() == s@,
            levels_of(done@).push(cur@) == split_levels(s@.take(it.index())),
    {
        let ghost before = levels_of(done@).push(cur@);
        let ghost prefix = s@.take(it.index() + 1);
        assert(prefix.drop_last() =~= s@.take(it.index()));
        assert(prefix.last() == c);
        if c == '/' {
            done.push(cur);
            cur = Vec::new();
            assert(levels_of(done@).push(cur@) =~= before.push(Seq::<char>::empty()));
        } else {
            cur.push(c);
            assert(levels_of(done@).push(cur@) =~= before.drop_last().push(
                before.last().push(c),
            ));
        }
    }
    assert(s@.take(s@.len() as int) =~= s@);
    let ghost all = levels_of(done@).push(cur@);
    done.push(cur);
    assert(levels_of(done@) =~= all);
    done
}

fn is_level(level: &Vec<char>, c: char) -> (yes: bool)
    ensures
        yes == (level@ == seq![c]),
{
    if level.len() == 1 && level[0] == c {
        assert(level@ =~= seq![c]);
        true
    } else {
        false
    }
}

/// Matches pattern levels against topic levels.
pub fn match_levels(p: &Vec<Vec<char>>, t: &Vec<Vec<char>>) -> (matched: bool)
    ensures
        matched == levels_match(levels_of(p@), levels_of(t@)),
{
    let ghost pl = levels_of(p@);
    let ghost tl = levels_of(t@);
    let mut i: usize = 0;
    assert(pl.skip(0) =~= pl && tl.skip(0) =~= tl);
    while i < p.len()
        invariant
            i <= p.len(),
            i <= t.len(),
            pl == levels_of(p@),
            tl == levels_of(t@),
            levels_match(pl, tl) == levels_match(pl.skip(i as int), tl.skip(i as int)),
        decreases p.len() - i,
    {
        let ghost ps = pl.skip(i as int);
        let ghost ts = tl.skip(i as int);
        assert(ps[0] == p@[i as int]@);
        if is_level(&p[i], '#') {
            return true;
        }
        if i >= t.len() {
            return false;
        }
        assert(ts[0] == t@[i as int]@);
        if is_level(&p[i], '+') || chars_eq(&p[i], &t[i]) {
            assert(ps.drop_first() =~= pl.skip(i + 1));
            assert(ts.drop_first() =~= tl.skip(i + 1));
            i += 1;
        } else {
            return false;
        }
    }
    i == t.len()
}

impl Header {
    /// Whether this filter's pattern matches `topic`.
    pub fn mqtt_topic_matches(&self, topic: &str) -> (matched: bool)
        ensures
            matched == topic_matches(self.topic@, topic@),
    {
        let p = split_topic(self.topic.as_str());
        let t = split_topic(topic);
        match_levels(&p, &t)
    }

    /// What [`Header::_check`] answers for a filter.
    pub open spec fn check_spec(v: HeaderView) -> Result<(), HeaderError> {
        if topic_matches(v.topic, system_topic()) {
            Err(HeaderError::ReservedTopic)
        } else if v.topic.len() == 0 {
            Err(HeaderError::EmptyTopic)
        } else if v.qos < 0 || v.qos > 2 {
            Err(HeaderError::InvalidQos)
        } else {
            Ok(())
        }
    }

    /// Validates a filter that a user asks for: its pattern must not cover
    /// the reserved system topic, must not be empty, and its quality of
    /// service must be 0, 1 or 2.
    pub fn _check(&self) -> (r: Result<(), HeaderError>)
        ensures
            r == Self::check_spec(self@),
    {
        if self.mqtt_topic_matches("system/#") {
            return Err(HeaderError::ReservedTopic);
        }
        if self.topic.as_str().unicode_len() == 0 {
            return Err(HeaderError::EmptyTopic);
        }
        if self.qos < 0 || self.qos > 2 {
            return Err(HeaderError::InvalidQos);
        }
        Ok(())
    }
}


/// The filter under which the system's own traffic is received.
pub open spec fn system_header() -> HeaderView {
    HeaderView { id: Seq::<char>::empty(), topic: system_topic(), qos: 2 }
}

/// The filters that are subscribed: those given, then the system filter.
pub open spec fn with_system_header(filters: Seq<HeaderView>) -> Seq<HeaderView> {
    filters.push(system_header())
}

/// The views of a sequence of filters.
pub open spec fn header_views(filters: Seq<Header>) -> Seq<HeaderView> {
    Seq::new(filters.len(), |i: int| filters[i]@)
}

/// Whether `i` is the first filter of `filters` whose pattern matches `topic`.
pub open spec fn is_first_match(filters: Seq<HeaderView>, topic: Seq<char>, i: int) -> bool {
    &&& 0 <= i < filters.len()
    &&& topic_matches(filters[i].topic, topic)
    &&& forall|j: int| 0 <= j < i ==> !topic_matches(#[trigger] filters[j].topic, topic)
}

/// Whether no filter of `filters` matches `topic`.
pub open spec fn no_match(filters: Seq<HeaderView>, topic: Seq<char>) -> bool {
    forall|j: int| 0 <= j < filters.len() ==> !topic_matches(#[trigger] filters[j].topic, topic)
}

/// The place of the first filter whose pattern matches `topic`, if any
/// matches: filters are tried in the order in which they stand.
pub fn resolve_header(headers: &Vec<Header>, topic: &str) -> (found: Option<usize>)
    ensures
        match found {
            Some(i) => is_first_match(header_views(headers@), topic@, i as int),
            None => no_match(header_views(headers@), topic@),
        },
{
    let t = split_topic(topic);
    let mut i: usize = 0;
    while i < headers.len()
        invariant
            i <= headers.len(),
            levels_of(t@) == split_levels(topic@),
            forall|j: int|
                0 <= j < i ==> !topic_matches(
                    #[trigger] header_views(headers@)[j].topic,
                    topic@,
                ),
        decreases headers.len() - i,
    {
        let p = split_topic(headers[i].topic.as_str());
        if match_levels(&p, &t) {
            return Some(i);
        }
        i += 1;
    }
    None
}

impl Header {
    /// The system filter: the reserved pattern at quality of service 2,
    /// with no identifier.
    pub fn system() -> (h: Header)
        ensures
            h@ == system_header(),
    {
        Header { id: String::new(), topic: "system/#".to_owned(), qos: 2 }
    }

    /// All the filters to subscribe to: the stored ones in their order, then
    /// the system filter.
    pub fn get_all_header(stored: Vec<Header>) -> (all: Vec<Header>)
        ensures
            header_views(all@) == with_system_header(header_views(stored@)),
    {
        let mut all = stored;
        all.push(Header::system());
        assert(header_views(all@) =~= with_system_header(header_views(stored@)));
        all
    }
}

/// The filters that the process has been asked to follow, in the order in
/// which they were registered. The system filter is always followed and is
/// not held here.
pub struct TopicRegistry {
    filters: Vec<Header>,
}

impl View for TopicRegistry {
    type V = Seq<HeaderView>;

    closed spec fn view(&self) -> Seq<HeaderView> {
        header_views(self.filters@)
    }
}

impl TopicRegistry {
    /// A registry without filters.
    pub fn new() -> (r: TopicRegistry)
        ensures
            r@ == Seq::<HeaderView>::empty(),
    {
        let r = TopicRegistry { filters: Vec::new() };
        assert(r@ =~= Seq::<HeaderView>::empty());
        r
    }

    /// Registers a filter if [`Header::_check`] accepts it, behind those
    /// already there; a refused filter leaves the registry as it was.
    pub fn register(&mut self, filter: Header) -> (r: Result<(), HeaderError>)
        ensures
            r == Header::check_spec(filter@),
            r is Ok ==> final(self)@ == old(self)@.push(filter@),
            r is Err ==> final(self)@ == old(self)@,
    {
        match filter._check() {
            Ok(()) => {
                self.filters.push(filter);
                assert(self@ =~= old(self)@.push(filter@));
                Ok(())
            },
            Err(e) => Err(e),
        }
    }

    /// The registered filters and the system filter, in the order in which
    /// they are tried.
    pub fn get_all_header(&self) -> (all: Vec<Header>)
        ensures
            header_views(all@) == with_system_header(self@),
    {
        let mut all: Vec<Header> = Vec::new();
        let mut i: usize = 0;
        while i < self.filters.len()
            invariant
                i <= self.filters.len(),
                all@.len() == i,
                forall|j: int| 0 <= j < i ==> all@[j] == self.filters@[j],
            decreases self.filters.len() - i,
        {
            all.push(self.filters[i].clone());
            i += 1;
        }
        assert(header_views(all@) =~= self@);
        Header::get_all_header(all)
    }

    /// The filter that owns `topic`: the first, in registration order and
    /// with the system filter last, whose pattern matches it.
    pub fn resolve(&self, topic: &str) -> (found: Option<Header>)
        ensures
            match found {
                Some(h) => exists|i: int|
                    is_first_match(with_system_header(self@), topic@, i) && h@
                        == with_system_header(self@)[i],
                None => no_match(with_system_header(self@), topic@),
            },
    {
        let all = self.get_all_header();
        match resolve_header(&all, topic) {
            Some(i) => {
                let h = all[i].clone();
                assert(is_first_match(with_system_header(self@), topic@, i as int));
                Some(h)
            },
            None => None,
        }
    }
}

/// Any sequence of levels, read as a pattern, matches itself read as a topic.
pub proof fn lemma_levels_match_self(levels: Seq<Seq<char>>)
    ensures
        levels_match(levels, levels),
    decreases levels.len(),
{
    if levels.len() > 0 && !is_multi_wildcard(levels[0]) {
        lemma_levels_match_self(levels.drop_first());
    }
}

/// Every pattern matches the topic that is spelled like it.
pub proof fn lemma_topic_matches_self(s: Seq<char>)
    ensures
        topic_matches(s, s),
{
    lemma_levels_match_self(split_levels(s));
}

/// A filter whose pattern is the reserved system pattern is refused as
/// reserved, whatever its identifier and its quality of service.
pub proof fn lemma_system_pattern_is_reserved(filter: HeaderView)
    requires
        filter.topic == system_topic(),
    ensures
        Header::check_spec(filter) == Err::<(), HeaderError>(HeaderError::ReservedTopic),
{
    lemma_topic_matches_self(system_topic());
}

/// The pattern `#` matches every topic.
pub proof fn lemma_multi_wildcard_matches_all(topic: Seq<char>)
    ensures
        topic_matches(seq!['#'], topic),
{
    let p = seq!['#'];
    assert(p.drop_last() =~= Seq::<char>::empty());
    assert(split_levels(p.drop_last()) =~= seq![Seq::<char>::empty()]);
    assert(split_levels(p)[0] =~= seq!['#']);
}

/// Splitting loses nothing: there is at least one level, no level holds a
/// `/`, and the levels joined by `/` spell the string again.
pub proof fn lemma_split_levels_sound(s: Seq<char>)
    ensures
        split_levels(s).len() >= 1,
        forall|i: int, j: int|
            0 <= i < split_levels(s).len() && 0 <= j < split_levels(s)[i].len()
                ==> #[trigger] split_levels(s)[i][j] != '/',
        join_levels(split_levels(s)) == s,
    decreases s.len(),
{
    if s.len() == 0 {
        assert(join_levels(split_levels(s)) =~= s);
    } else {
        let before = split_levels(s.drop_last());
        lemma_split_levels_sound(s.drop_last());
        let now = split_levels(s);
        if s.last() == '/' {
            assert(now.drop_last() =~= before);
            assert(join_levels(now) =~= s);
        } else {
            let grown = before.last().push(s.last());
            assert(now.last() == grown);
            if before.len() == 1 {
                assert(join_levels(before) == before[0]);
                assert(join_levels(now) =~= s);
            } else {
                assert(now.drop_last() =~= before.drop_last());
                let head = join_levels(before.drop_last()) + seq!['/'];
                assert(join_levels(before) == head + before.last());
                assert(join_levels(now) == head + grown);
                assert(head + grown =~= (head + before.last()).push(s.last()));
                assert(s.drop_last().push(s.last()) =~= s);
            }
        }
    }
}

/// Whether no level is a wildcard.
pub open spec fn is_literal(levels: Seq<Seq<char>>) -> bool {
    forall|i: int|
        0 <= i < levels.len() ==> !is_multi_wildcard(#[trigger] levels[i]) && !is_single_wildcard(
            levels[i],
        )
}

/// Levels without wildcards match the same levels and no others.
pub proof fn lemma_literal_levels_match_only_themselves(p: Seq<Seq<char>>, t: Seq<Seq<char>>)
    requires
        is_literal(p),
    ensures
        levels_match(p, t) <==> p == t,
    decreases p.len(),
{
    if p.len() == 0 {
        assert(levels_match(p, t) <==> t.len() == 0);
        if t.len() == 0 {
            assert(p =~= t);
        }
    } else {
        assert(!is_multi_wildcard(p[0]) && !is_single_wildcard(p[0]));
        if t.len() > 0 && p[0] == t[0] {
            assert forall|i: int| 0 <= i < p.drop_first().len() implies !is_multi_wildcard(
                #[trigger] p.drop_first()[i],
            ) && !is_single_wildcard(p.drop_first()[i]) by {
                assert(p.drop_first()[i] == p[i + 1]);
            }
            lemma_literal_levels_match_only_themselves(p.drop_first(), t.drop_first());
            if p.drop_first() == t.drop_first() {
                assert(p =~= seq![p[0]] + p.drop_first());
                assert(t =~= seq![t[0]] + t.drop_first());
            }
        }
    }
}

/// A pattern without wildcards matches the topic that is spelled like it
/// and no other.
pub proof fn lemma_literal_pattern_matches_only_itself(pattern: Seq<char>, topic: Seq<char>)
    requires
        is_literal(split_levels(pattern)),
    ensures
        topic_matches(pattern, topic) <==> pattern == topic,
{
    lemma_literal_levels_match_only_themselves(split_levels(pattern), split_levels(topic));
    lemma_split_levels_sound(pattern);
    lemma_split_levels_sound(topic);
}

} // verus!
