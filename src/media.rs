//! Pattern matchers over file paths and the engine that tries them in order.

use vstd::prelude::*;

use crate::number::{parse_u16, u16_of};

verus! {

#[verifier::external_type_specification]
#[verifier::external_body]
pub struct ExRegex(regex::Regex);

#[verifier::external_type_specification]
#[verifier::external_body]
pub struct ExRegexError(regex::Error);

/// Whether the regex crate accepts a pattern: it parses, and its compiled
/// form stays within the default size limit.
pub uninterp spec fn regex_compiles(pattern: Seq<char>) -> bool;

/// The pattern text that a compiled regex was built from.
pub uninterp spec fn regex_source(re: regex::Regex) -> Seq<char>;

/// The groups of the leftmost-first match of a pattern in a text, the whole
/// match first, each `None` where the group took no part; `None` where the
/// pattern does not match anywhere in the text.
pub uninterp spec fn captures_of(pattern: Seq<char>, text: Seq<char>) -> Option<Seq<Option<Seq<char>>>>;

/// Relies on `regex::Regex::new`: it succeeds exactly on the patterns that
/// compile, and the regex keeps the pattern text (what `Regex::as_str` gives back).
#[verifier::external_body]
fn compile(pattern: &str) -> (r: Result<regex::Regex, regex::Error>)
    ensures
        r is Ok <==> regex_compiles(pattern@),
        r matches Ok(re) ==> regex_source(re) == pattern@,
{
    regex::Regex::new(pattern)
}

/// Relies on `regex::Regex::captures` (with `Captures::iter`): the text of
/// every group of the first match, in group order.
#[verifier::external_body]
fn captures(re: &regex::Regex, text: &str) -> (r: Option<Vec<Option<String>>>)
    ensures
        groups_view(r) == captures_of(regex_source(*re), text@),
{
    re.captures(text).map(|c| c.iter().map(|m| m.map(|m| m.as_str().to_string())).collect())
}

pub open spec fn text_of(t: Option<String>) -> Option<Seq<char>> {
    match t {
        Some(s) => Some(s@),
        None => None,
    }
}

pub open spec fn groups_seq(v: Seq<Option<String>>) -> Seq<Option<Seq<char>>> {
    v.map_values(|o: Option<String>| text_of(o))
}

pub open spec fn groups_view(g: Option<Vec<Option<String>>>) -> Option<Seq<Option<Seq<char>>>> {
    match g {
        Some(v) => Some(groups_seq(v@)),
        None => None,
    }
}

/// The metadata read from one path.
#[derive(Debug, Clone)]
pub struct Episode {
    /// Name of the show, verbatim from the path.
    pub title: Option<String>,
    /// Season number (for dotted film names: the year).
    pub season: Option<u16>,
    /// Episode number.
    pub episode: Option<u16>,
}

/// The mathematical value of an [`Episode`].
pub struct EpisodeView {
    pub title: Option<Seq<char>>,
    pub season: Option<u16>,
    pub episode: Option<u16>,
}

impl View for Episode {
    type V = EpisodeView;

    open spec fn view(&self) -> EpisodeView {
        EpisodeView { title: text_of(self.title), season: self.season, episode: self.episode }
    }
}

pub open spec fn record_view(r: Option<Episode>) -> Option<EpisodeView> {
    match r {
        Some(e) => Some(e@),
        None => None,
    }
}

/// The text of group `i`, absent where there is no such group or it took no part.
pub open spec fn group_at(groups: Seq<Option<Seq<char>>>, i: int) -> Option<Seq<char>> {
    if 0 <= i < groups.len() {
        groups[i]
    } else {
        None
    }
}

/// The number held by group `i`, absent where the group is absent or is no `u16`.
pub open spec fn number_at(groups: Seq<Option<Seq<char>>>, i: int) -> Option<u16> {
    match group_at(groups, i) {
        Some(t) => u16_of(t),
        None => None,
    }
}

/// The record that a match yields under a field map `[title, season, episode]`
/// of group numbers; a season group of `0` means that the season is `1`.
pub open spec fn record_from_groups(groups: Seq<Option<Seq<char>>>, map: Seq<usize>) -> EpisodeView {
    EpisodeView {
        title: group_at(groups, map[0] as int),
        season: if map[1] == 0 {
            Some(1u16)
        } else {
            number_at(groups, map[1] as int)
        },
        episode: number_at(groups, map[2] as int),
    }
}

/// What a pattern with a field map makes of a path.
pub open spec fn match_path(pattern: Seq<char>, map: Seq<usize>, path: Seq<char>) -> Option<EpisodeView> {
    match captures_of(pattern, path) {
        Some(groups) => Some(record_from_groups(groups, map)),
        None => None,
    }
}

fn group_text(groups: &Vec<Option<String>>, i: usize) -> (r: Option<String>)
    ensures
        text_of(r) == group_at(groups_seq(groups@), i as int),
{
    if i < groups.len() {
        match &groups[i] {
            Some(s) => Some(s.as_str().to_owned()),
            None => None,
        }
    } else {
        None
    }
}

fn group_number(groups: &Vec<Option<String>>, i: usize) -> (r: Option<u16>)
    ensures
        r == number_at(groups_seq(groups@), i as int),
{
    if i < groups.len() {
        match &groups[i] {
            Some(s) => parse_u16(s.as_str()),
            None => None,
        }
    } else {
        None
    }
}

/// Builds the record of a match from its groups: the title group verbatim,
/// the season and episode groups read as numbers, where a group that is
/// missing or holds no `u16` leaves its field absent and the others stand.
pub fn episode_from_captures(groups: &Vec<Option<String>>, indexes: &Vec<usize>) -> (r: Episode)
    requires
        indexes@.len() == 3,
    ensures
        r@ == record_from_groups(groups_seq(groups@), indexes@),
{
    let title = group_text(groups, indexes[0]);
    let season = if indexes[1] == 0 {
        Some(1u16)
    } else {
        group_number(groups, indexes[1])
    };
    let episode = group_number(groups, indexes[2]);
    Episode { title, season, episode }
}

/// Why a matcher could not be built.
#[derive(Debug, Clone, Copy, PartialEq, Eq, Structural)]
pub enum PatternError {
    /// The pattern is not a regular expression that the regex crate accepts.
    InvalidPattern,
}

/// A matcher: says what record, if any, a path yields.
pub trait Parser {
    /// The record that this matcher makes of a path, `None` where it does not match.
    spec fn parse_spec(&self, path: Seq<char>) -> Option<EpisodeView>;

    fn parse(&self, path: &str) -> (r: Option<Episode>)
        ensures
            record_view(r) == self.parse_spec(path@),
    ;
}

/// A matcher made of a regular expression over the whole path and the group
/// numbers that hold the title, the season and the episode.
pub struct RegexParser {
    re: regex::Regex,
    indexes: Vec<usize>,
}

impl RegexParser {
    /// The pattern text of this matcher.
    pub closed spec fn pattern(&self) -> Seq<char> {
        regex_source(self.re)
    }

    /// The group numbers of title, season and episode, in that order.
    pub closed spec fn field_map(&self) -> Seq<usize> {
        self.indexes@
    }

    /// Every matcher that `new` builds has a field map of three group numbers.
    pub closed spec fn well_formed(&self) -> bool {
        self.indexes@.len() == 3
    }

    /// Compiles a matcher; fails at once where the pattern is not a valid
    /// regular expression.
    pub fn new(pattern: &str, indexes: Vec<usize>) -> (r: Result<RegexParser, PatternError>)
        requires
            indexes@.len() == 3,
        ensures
            r is Ok <==> regex_compiles(pattern@),
            r matches Ok(p) ==> p.well_formed() && p.pattern() == pattern@ && p.field_map() == indexes@,
            r matches Err(e) ==> e == PatternError::InvalidPattern,
    {
        match compile(pattern) {
            Ok(re) => Ok(RegexParser { re, indexes }),
            Err(_) => Err(PatternError::InvalidPattern),
        }
    }
}

impl Parser for RegexParser {
    open spec fn parse_spec(&self, path: Seq<char>) -> Option<EpisodeView> {
        if self.well_formed() {
            match_path(self.pattern(), self.field_map(), path)
        } else {
            None
        }
    }

    fn parse(&self, path: &str) -> (r: Option<Episode>) {
        if self.indexes.len() != 3 {
            return None;
        }
        match captures(&self.re, path) {
            Some(groups) => Some(episode_from_captures(&groups, &self.indexes)),
            None => None,
        }
    }
}

/// The record of the first matcher, from position `i` on, that matches the path.
pub open spec fn first_match_from<T: Parser>(parsers: Seq<T>, i: int, path: Seq<char>) -> Option<EpisodeView>
    decreases parsers.len() - i,
{
    if i < 0 || i >= parsers.len() {
        None
    } else {
        match parsers[i].parse_spec(path) {
            Some(e) => Some(e),
            None => first_match_from(parsers, i + 1, path),
        }
    }
}

/// The record of the first matcher in the list that matches the path.
pub open spec fn first_match<T: Parser>(parsers: Seq<T>, path: Seq<char>) -> Option<EpisodeView> {
    first_match_from(parsers, 0, path)
}

/// The record of the first `(pattern, field map)` entry, from position `i`
/// on, whose pattern matches the path.
pub open spec fn table_match_from(table: Seq<(Seq<char>, Seq<usize>)>, i: int, path: Seq<char>) -> Option<EpisodeView>
    decreases table.len() - i,
{
    if i < 0 || i >= table.len() {
        None
    } else {
        match match_path(table[i].0, table[i].1, path) {
            Some(e) => Some(e),
            None => table_match_from(table, i + 1, path),
        }
    }
}

pub open spec fn table_match(table: Seq<(Seq<char>, Seq<usize>)>, path: Seq<char>) -> Option<EpisodeView> {
    table_match_from(table, 0, path)
}

/// A season folder with an episode count and a resolution tag, episodes
/// numbered by file: `.../Show/ShowS01.37集.1080P/01.mkv`.
pub const SEASON_FOLDER_PATTERN: &'static str = r"^(.*?)/([^/]+)S(\d{2})\.(\d{1,2})集\.(\d{4}P)/(\d{2})\.(\w+)$";

/// One file named `ShowS01E02.ext`.
pub const SEASON_EPISODE_PATTERN: &'static str = r"^(.*?)/([^/]+)S(\d{2})E(\d{2})\.(\w+)$";

/// A season subfolder with year and resolution: `.../Show/S4 (2014) 4K/01.mp4`.
pub const SEASON_YEAR_FOLDER_PATTERN: &'static str = r"^(.*?)/([^/]+)/S(\d{1,2})\s+\(\d{4}\)\s+\d{1,2}K/(\d{2})\.(\w+)$";

/// A release-group file under `Show (2013) 4K/`, with an `E02` tag in its name.
pub const RELEASE_GROUP_PATTERN: &'static str = r"/([^/]+)/([^/]+) \(.*\) .*E(\d{2})";

/// A dotted film name with year and a long number: `Show.2009.01201.mp4`.
pub const DOTTED_FILM_PATTERN: &'static str = r"^(.*?)/([^/]+)\.(\d{4})\.(\d{5})\.\w+$";

/// A folder `Show.1080P/` holding files that name the episode as `第04集`.
pub const NUMBERED_EPISODE_PATTERN: &'static str = r"^(.*?)/([^/]+)\.1080P/.*?第(\d{1,2})集\.\w+$";

/// The built-in conventions, in the order in which they are tried, each with
/// the group numbers of title, season and episode.
pub open spec fn builtin_table() -> Seq<(Seq<char>, Seq<usize>)> {
    seq![
        (SEASON_FOLDER_PATTERN@, seq![2usize, 3, 6]),
        (SEASON_EPISODE_PATTERN@, seq![2usize, 3, 4]),
        (SEASON_YEAR_FOLDER_PATTERN@, seq![2usize, 3, 4]),
        (RELEASE_GROUP_PATTERN@, seq![2usize, 0, 3]),
        (DOTTED_FILM_PATTERN@, seq![2usize, 3, 4]),
        (NUMBERED_EPISODE_PATTERN@, seq![2usize, 0, 3]),
    ]
}

/// Whether every built-in pattern compiles.
pub open spec fn builtins_compile() -> bool {
    forall|i: int| 0 <= i < builtin_table().len() ==> regex_compiles(#[trigger] builtin_table()[i].0)
}

/// Both walks agree where each matcher carries the entry of the table at its position.
proof fn lemma_parsers_follow_table(parsers: Seq<RegexParser>, table: Seq<(Seq<char>, Seq<usize>)>, i: int, path: Seq<char>)
    requires
        parsers.len() == table.len(),
        0 <= i <= parsers.len(),
        forall|j: int| 0 <= j < parsers.len() ==> (#[trigger] parsers[j]).well_formed()
            && parsers[j].pattern() == table[j].0 && parsers[j].field_map() == table[j].1,
    ensures
        first_match_from(parsers, i, path) == table_match_from(table, i, path),
    decreases parsers.len() - i,
{
    if i < parsers.len() {
        lemma_parsers_follow_table(parsers, table, i + 1, path);
        assert(parsers[i].well_formed());
    }
}


proof fn lemma_table_earliest_from(table: Seq<(Seq<char>, Seq<usize>)>, path: Seq<char>, i: int, k: int)
    requires
        0 <= k <= i < table.len(),
        match_path(table[i].0, table[i].1, path) is Some,
        forall|j: int| 0 <= j < i ==> (#[trigger] match_path(table[j].0, table[j].1, path)) is None,
    ensures
        table_match_from(table, k, path) == match_path(table[i].0, table[i].1, path),
    decreases i - k,
{
    if k < i {
        lemma_table_earliest_from(table, path, i, k + 1);
    }
}

/// Order decides between conventions: where entry `i` of a table matches a
/// path and no entry before it does, the path yields the record of entry `i`,
/// whatever a later entry would have made of it.
pub proof fn lemma_earliest_entry_wins(table: Seq<(Seq<char>, Seq<usize>)>, path: Seq<char>, i: int)
    requires
        0 <= i < table.len(),
        match_path(table[i].0, table[i].1, path) is Some,
        forall|j: int| 0 <= j < i ==> (#[trigger] match_path(table[j].0, table[j].1, path)) is None,
    ensures
        table_match(table, path) == match_path(table[i].0, table[i].1, path),
{
    lemma_table_earliest_from(table, path, i, 0);
}

proof fn lemma_parsers_earliest_from<T: Parser>(parsers: Seq<T>, path: Seq<char>, i: int, k: int)
    requires
        0 <= k <= i < parsers.len(),
        parsers[i].parse_spec(path) is Some,
        forall|j: int| 0 <= j < i ==> (#[trigger] parsers[j].parse_spec(path)) is None,
    ensures
        first_match_from(parsers, k, path) == parsers[i].parse_spec(path),
    decreases i - k,
{
    if k < i {
        lemma_parsers_earliest_from(parsers, path, i, k + 1);
    }
}

/// The engine returns the record of the first matcher that matches: where
/// matcher `i` matches a path and none before it does, no later matcher counts.
pub proof fn lemma_first_matcher_wins<T: Parser>(parsers: Seq<T>, path: Seq<char>, i: int)
    requires
        0 <= i < parsers.len(),
        parsers[i].parse_spec(path) is Some,
        forall|j: int| 0 <= j < i ==> (#[trigger] parsers[j].parse_spec(path)) is None,
    ensures
        first_match(parsers, path) == parsers[i].parse_spec(path),
{
    lemma_parsers_earliest_from(parsers, path, i, 0);
}

proof fn lemma_no_entry_from(table: Seq<(Seq<char>, Seq<usize>)>, path: Seq<char>, k: int)
    requires
        0 <= k <= table.len(),
        forall|j: int| 0 <= j < table.len() ==> (#[trigger] match_path(table[j].0, table[j].1, path)) is None,
    ensures
        table_match_from(table, k, path) is None,
    decreases table.len() - k,
{
    if k < table.len() {
        lemma_no_entry_from(table, path, k + 1);
    }
}

/// A path that no entry of the table matches yields no record, and no error.
pub proof fn lemma_no_match_yields_none(table: Seq<(Seq<char>, Seq<usize>)>, path: Seq<char>)
    requires
        forall|j: int| 0 <= j < table.len() ==> (#[trigger] match_path(table[j].0, table[j].1, path)) is None,
    ensures
        table_match(table, path) is None,
{
    lemma_no_entry_from(table, path, 0);
}

/// A field map with season group `0` gives season `1` on every path that its
/// pattern matches, whatever digits the path holds.
pub proof fn lemma_default_season(pattern: Seq<char>, map: Seq<usize>, path: Seq<char>)
    requires
        map.len() == 3,
        map[1] == 0,
        match_path(pattern, map, path) is Some,
    ensures
        match_path(pattern, map, path)->Some_0.season == Some(1u16),
{
}

/// The two built-in conventions without a season group, the release-group
/// files and the numbered episodes, always give season `1`.
pub proof fn lemma_builtin_default_season(i: int, path: Seq<char>)
    requires
        i == 3 || i == 5,
        match_path(builtin_table()[i].0, builtin_table()[i].1, path) is Some,
    ensures
        builtin_table()[i].0 == RELEASE_GROUP_PATTERN@ || builtin_table()[i].0 == NUMBERED_EPISODE_PATTERN@,
        match_path(builtin_table()[i].0, builtin_table()[i].1, path)->Some_0.season == Some(1u16),
{
    lemma_default_season(builtin_table()[i].0, builtin_table()[i].1, path);
}

/// Extraction keeps no state: two runs of the engine on one path with one
/// list of matchers give the same record.
pub proof fn lemma_extraction_repeatable<T: Parser>(parsers: Seq<T>, path: Seq<char>, a: Option<Episode>, b: Option<Episode>)
    requires
        record_view(a) == first_match(parsers, path),
        record_view(b) == first_match(parsers, path),
    ensures
        record_view(a) == record_view(b),
{
}

impl Episode {
    /// Tries each matcher in order and returns the record of the first that
    /// matches; `None` where none does.
    pub fn from_path_with_regex<T: Parser>(path: &str, parsers: Vec<T>) -> (r: Option<Episode>)
        ensures
            record_view(r) == first_match(parsers@, path@),
    {
        let mut i: usize = 0;
        while i < parsers.len()
            invariant
                i <= parsers@.len(),
                first_match(parsers@, path@) == first_match_from(parsers@, i as int, path@),
            decreases parsers@.len() - i,
        {
            let item = parsers[i].parse(path);
            if item.is_some() {
                return item;
            }
            i = i + 1;
        }
        None
    }

    /// Builds the built-in matchers, in order.
    fn builtin_parsers() -> (r: Result<Vec<RegexParser>, PatternError>)
        ensures
            r is Ok <==> builtins_compile(),
            r matches Ok(v) ==> v@.len() == builtin_table().len() && forall|j: int| 0 <= j < v@.len() ==>
                (#[trigger] v@[j]).well_formed() && v@[j].pattern() == builtin_table()[j].0
                && v@[j].field_map() == builtin_table()[j].1,
    {
        let p0 = match RegexParser::new(SEASON_FOLDER_PATTERN, vec![2, 3, 6]) {
            Ok(p) => p,
            Err(e) => {
                assert(!regex_compiles(builtin_table()[0].0));
                return Err(e);
            },
        };
        let p1 = match RegexParser::new(SEASON_EPISODE_PATTERN, vec![2, 3, 4]) {
            Ok(p) => p,
            Err(e) => {
                assert(!regex_compiles(builtin_table()[1].0));
                return Err(e);
            },
        };
        let p2 = match RegexParser::new(SEASON_YEAR_FOLDER_PATTERN, vec![2, 3, 4]) {
            Ok(p) => p,
            Err(e) => {
                assert(!regex_compiles(builtin_table()[2].0));
                return Err(e);
            },
        };
        let p3 = match RegexParser::new(RELEASE_GROUP_PATTERN, vec![2, 0, 3]) {
            Ok(p) => p,
            Err(e) => {
                assert(!regex_compiles(builtin_table()[3].0));
                return Err(e);
            },
        };
        let p4 = match RegexParser::new(DOTTED_FILM_PATTERN, vec![2, 3, 4]) {
            Ok(p) => p,
            Err(e) => {
                assert(!regex_compiles(builtin_table()[4].0));
                return Err(e);
            },
        };
        let p5 = match RegexParser::new(NUMBERED_EPISODE_PATTERN, vec![2, 0, 3]) {
            Ok(p) => p,
            Err(e) => {
                assert(!regex_compiles(builtin_table()[5].0));
                return Err(e);
            },
        };
        let parsers = vec![p0, p1, p2, p3, p4, p5];
        proof {
            assert forall|j: int| 0 <= j < builtin_table().len() implies regex_compiles(
                #[trigger] builtin_table()[j].0,
            ) by {
                assert(parsers@[j].pattern() == builtin_table()[j].0);
            }
        }
        Ok(parsers)
    }

    /// Reads episode metadata from a path with the built-in conventions.
    /// Fails only where a built-in pattern does not compile.
    pub fn from_path(path: &str) -> (r: Result<Option<Episode>, PatternError>)
        ensures
            r is Ok <==> builtins_compile(),
            r matches Ok(o) ==> record_view(o) == table_match(builtin_table(), path@),
    {
        let parsers = Self::builtin_parsers()?;
        proof {
            lemma_parsers_follow_table(parsers@, builtin_table(), 0, path@);
        }
        Ok(Self::from_path_with_regex(path, parsers))
    }
}

} // verus!
