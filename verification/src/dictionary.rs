//! Looking a word up in the local dictionary, as a dialogue with the database.
use vstd::prelude::*;
use vstd::string::*;

use crate::text;
use crate::translator::{outcome_of, text_of, Outcome, TranslateResult};

verus! {

/// The dictionary in a database file.
pub struct LocalSqliteDict {
    db_path: String,
}

impl View for LocalSqliteDict {
    type V = Seq<char>;

    closed spec fn view(&self) -> Seq<char> {
        self.db_path@
    }
}

/// A row of the dictionary. A column that could not be read is `None`; the
/// pronunciation may also be null.
pub struct DictRow {
    pub phonetic: Option<Option<String>>,
    pub translation: Option<String>,
}

/// The contents of a [`DictRow`].
pub struct Row {
    pub phonetic: Option<Option<Seq<char>>>,
    pub translation: Option<Seq<char>>,
}

impl View for DictRow {
    type V = Row;

    open spec fn view(&self) -> Row {
        Row {
            phonetic: match self.phonetic {
                Some(p) => Some(text_of(p)),
                None => None,
            },
            translation: text_of(self.translation),
        }
    }
}

/// How far a lookup has come.
#[derive(Clone, Copy, PartialEq, Eq, Structural, Debug)]
pub enum DictStage {
    Opening,
    Preparing,
    PreparingFallback,
    Querying,
    Finished,
}

/// What the database answered.
pub enum DictEvent {
    /// The file was opened, or the reason why not.
    Opened(Result<(), String>),
    /// The query was prepared, or the reason why not.
    Prepared(Result<(), String>),
    /// The first row, if there is one, or the reason why the query failed.
    Answered(Result<Option<DictRow>, String>),
}

/// What is asked of the database next.
pub enum DictAction {
    /// Open the file for reading only.
    Open { path: String },
    Prepare { sql: String },
    /// Run the prepared query on a word.
    Query { word: String },
    Finish(Result<Option<TranslateResult>, String>),
}

/// The contents of a [`DictEvent`].
pub enum DictReply {
    Opened(Result<(), Seq<char>>),
    Prepared(Result<(), Seq<char>>),
    Answered(Result<Option<Row>, Seq<char>>),
}

/// The contents of a [`DictAction`].
pub enum DictDemand {
    Open { path: Seq<char> },
    Prepare { sql: Seq<char> },
    Query { word: Seq<char> },
    Finish(Result<Option<Outcome>, Seq<char>>),
}

impl View for DictEvent {
    type V = DictReply;

    open spec fn view(&self) -> DictReply {
        match *self {
            DictEvent::Opened(Ok(())) => DictReply::Opened(Ok(())),
            DictEvent::Opened(Err(e)) => DictReply::Opened(Err(e@)),
            DictEvent::Prepared(Ok(())) => DictReply::Prepared(Ok(())),
            DictEvent::Prepared(Err(e)) => DictReply::Prepared(Err(e@)),
            DictEvent::Answered(Ok(None)) => DictReply::Answered(Ok(None)),
            DictEvent::Answered(Ok(Some(row))) => DictReply::Answered(Ok(Some(row@))),
            DictEvent::Answered(Err(e)) => DictReply::Answered(Err(e@)),
        }
    }
}

impl View for DictAction {
    type V = DictDemand;

    open spec fn view(&self) -> DictDemand {
        match *self {
            DictAction::Open { path } => DictDemand::Open { path: path@ },
            DictAction::Prepare { sql } => DictDemand::Prepare { sql: sql@ },
            DictAction::Query { word } => DictDemand::Query { word: word@ },
            DictAction::Finish(Ok(r)) => DictDemand::Finish(Ok(outcome_of(r))),
            DictAction::Finish(Err(e)) => DictDemand::Finish(Err(e@)),
        }
    }
}

/// The query for one word in a table of the dictionary.
pub open spec fn select_sql(table: Seq<char>) -> Seq<char> {
    "SELECT phonetic, translation"@ + " FROM "@ + table + " WHERE word = ? LIMIT 1"@
}

/// The query that is tried first.
pub open spec fn query_sql() -> Seq<char> {
    select_sql("dictionary"@)
}

/// The query for databases that lack the first table.
pub open spec fn fallback_sql() -> Seq<char> {
    select_sql("stardict"@)
}

fn select_from(table: &str) -> (r: String)
    ensures
        r@ == select_sql(table@),
{
    let mut r: String = "SELECT phonetic, translation".to_owned();
    r.append(" FROM ");
    r.append(table);
    r.append(" WHERE word = ? LIMIT 1");
    r
}

/// The word under which `source` stands in the dictionary.
pub open spec fn headword(source: Seq<char>) -> Seq<char> {
    text::lower_case(text::trimmed(source))
}

/// A translation as it is shown: the written `\n` becomes a line break, the
/// written `\r` disappears.
pub open spec fn unescaped(s: Seq<char>) -> Seq<char> {
    text::replaced(text::replaced(s, "\\n"@, "\n"@), "\\r"@, ""@)
}

/// What a row of the dictionary says of `source`.
pub open spec fn row_outcome(source: Seq<char>, row: Row) -> Outcome {
    Outcome {
        source,
        phonetic: match row.phonetic {
            Some(Some(p)) => if p.len() > 0 {
                Some(p)
            } else {
                None
            },
            _ => None,
        },
        translation: match row.translation {
            Some(t) => unescaped(t),
            None => unescaped(Seq::empty()),
        },
        is_llm: false,
        is_error: false,
    }
}

/// Whether `reply` answers what was asked at `stage`.
pub open spec fn dict_expects(stage: DictStage, reply: DictReply) -> bool {
    match stage {
        DictStage::Opening => reply is Opened,
        DictStage::Preparing => reply is Prepared,
        DictStage::PreparingFallback => reply is Prepared,
        DictStage::Querying => reply is Answered,
        DictStage::Finished => false,
    }
}

/// The next stage, and what is asked next.
pub open spec fn dict_step(source: Seq<char>, stage: DictStage, reply: DictReply) -> (
    DictStage,
    DictDemand,
) {
    match (stage, reply) {
        (DictStage::Opening, DictReply::Opened(Ok(_))) => (
            DictStage::Preparing,
            DictDemand::Prepare { sql: query_sql() },
        ),
        (DictStage::Opening, DictReply::Opened(Err(e))) => (
            DictStage::Finished,
            DictDemand::Finish(Err(e)),
        ),
        (DictStage::Preparing, DictReply::Prepared(Err(_))) => (
            DictStage::PreparingFallback,
            DictDemand::Prepare { sql: fallback_sql() },
        ),
        (_, DictReply::Prepared(Ok(_))) => (
            DictStage::Querying,
            DictDemand::Query { word: headword(source) },
        ),
        (_, DictReply::Prepared(Err(e))) => (DictStage::Finished, DictDemand::Finish(Err(e))),
        (_, DictReply::Answered(Ok(Some(row)))) => (
            DictStage::Finished,
            DictDemand::Finish(Ok(Some(row_outcome(source, row)))),
        ),
        (_, DictReply::Answered(Ok(None))) => (
            DictStage::Finished,
            DictDemand::Finish(Ok(None)),
        ),
        (_, DictReply::Answered(Err(e))) => (DictStage::Finished, DictDemand::Finish(Err(e))),
        (_, DictReply::Opened(_)) => arbitrary(),
    }
}

/// A lookup on its way.
pub struct DictLookup {
    text: String,
    stage: DictStage,
}

impl DictLookup {
    /// The text that is looked up.
    pub closed spec fn source(&self) -> Seq<char> {
        self.text@
    }

    pub closed spec fn stage(&self) -> DictStage {
        self.stage
    }

    /// Takes the answer to the last demand and gives the next.
    pub fn step(&mut self, event: DictEvent) -> (action: DictAction)
        requires
            dict_expects(old(self).stage(), event@),
        ensures
            final(self).source() == old(self).source(),
            (final(self).stage(), action@) == dict_step(
                old(self).source(),
                old(self).stage(),
                event@,
            ),
    {
        match event {
            DictEvent::Opened(Ok(_)) => {
                self.stage = DictStage::Preparing;
                DictAction::Prepare { sql: select_from("dictionary") }
            },
            DictEvent::Opened(Err(e)) => {
                self.stage = DictStage::Finished;
                DictAction::Finish(Err(e))
            },
            DictEvent::Prepared(Ok(_)) => {
                self.stage = DictStage::Querying;
                DictAction::Query { word: text::trim(self.text.as_str()).to_lowercase() }
            },
            DictEvent::Prepared(Err(e)) => {
                if self.stage == DictStage::Preparing {
                    self.stage = DictStage::PreparingFallback;
                    DictAction::Prepare { sql: select_from("stardict") }
                } else {
                    self.stage = DictStage::Finished;
                    DictAction::Finish(Err(e))
                }
            },
            DictEvent::Answered(Ok(Some(row))) => {
                self.stage = DictStage::Finished;
                DictAction::Finish(Ok(Some(entry(self.text.as_str(), row))))
            },
            DictEvent::Answered(Ok(None)) => {
                self.stage = DictStage::Finished;
                DictAction::Finish(Ok(None))
            },
            DictEvent::Answered(Err(e)) => {
                self.stage = DictStage::Finished;
                DictAction::Finish(Err(e))
            },
        }
    }
}

/// The result that a row of the dictionary gives for `text`.
pub fn entry(text: &str, row: DictRow) -> (r: TranslateResult)
    ensures
        r@ == row_outcome(text@, row@),
{
    let phonetic: Option<String> = match row.phonetic {
        Some(Some(p)) => if p.as_str().is_empty() {
            None
        } else {
            Some(p)
        },
        _ => None,
    };
    let raw: String = match row.translation {
        Some(t) => t,
        None => String::new(),
    };
    proof {
        reveal_strlit("\\n");
        reveal_strlit("\\r");
    }
    let with_breaks: String = text::replace_all(raw.as_str(), "\\n", "\n");
    TranslateResult {
        source_text: text.to_owned(),
        phonetic,
        translation: text::replace_all(with_breaks.as_str(), "\\r", ""),
        is_llm: false,
        is_error: false,
    }
}

impl LocalSqliteDict {
    /// The dictionary in the database at `db_path`.
    pub fn new(db_path: &str) -> (r: Self)
        ensures
            r@ == db_path@,
    {
        LocalSqliteDict { db_path: db_path.to_owned() }
    }

    /// Begins to look `text` up: the lookup, and what is asked first.
    pub fn translate(&self, text: &str) -> (r: (DictLookup, DictAction))
        ensures
            r.0.source() == text@,
            r.0.stage() == DictStage::Opening,
            r.1@ == (DictDemand::Open { path: self@ }),
    {
        (
            DictLookup { text: text.to_owned(), stage: DictStage::Opening },
            DictAction::Open { path: self.db_path.clone() },
        )
    }
}

/// What a database answers: to the opening of a file, to the preparation of
/// a query, and to a prepared query for a word.
pub struct DictWorld {
    pub opened: spec_fn(Seq<char>) -> Result<(), Seq<char>>,
    pub prepared: spec_fn(Seq<char>) -> Result<(), Seq<char>>,
    pub found: spec_fn(Seq<char>, Seq<char>) -> Result<Option<Row>, Seq<char>>,
}

impl DictWorld {
    /// The answer to `demand`, where `sql` was prepared last.
    pub open spec fn reply(self, demand: DictDemand, sql: Seq<char>) -> DictReply {
        match demand {
            DictDemand::Open { path } => DictReply::Opened((self.opened)(path)),
            DictDemand::Prepare { sql } => DictReply::Prepared((self.prepared)(sql)),
            DictDemand::Query { word } => DictReply::Answered((self.found)(sql, word)),
            DictDemand::Finish(_) => arbitrary(),
        }
    }
}

/// What the answer to a query says of `source`: its error, nothing, or the
/// entry of the first row.
pub open spec fn entry_found(source: Seq<char>, found: Result<Option<Row>, Seq<char>>) -> Result<
    Option<Outcome>,
    Seq<char>,
> {
    match found {
        Err(e) => Err(e),
        Ok(None) => Ok(None),
        Ok(Some(row)) => Ok(Some(row_outcome(source, row))),
    }
}

/// How many answers a lookup at `stage` can still take.
pub open spec fn dict_answers_left(stage: DictStage) -> nat {
    match stage {
        DictStage::Opening => 4,
        DictStage::Preparing => 3,
        DictStage::PreparingFallback => 2,
        DictStage::Querying => 1,
        DictStage::Finished => 0,
    }
}

/// What a lookup of `source` ends with that stands at `stage` and demands
/// `demand`, where `sql` was prepared last.
pub open spec fn dict_drive(
    source: Seq<char>,
    stage: DictStage,
    demand: DictDemand,
    sql: Seq<char>,
    world: DictWorld,
) -> Result<Option<Outcome>, Seq<char>>
    decreases dict_answers_left(stage),
{
    match demand {
        DictDemand::Finish(r) => r,
        _ => {
            let (next, next_demand) = dict_step(source, stage, world.reply(demand, sql));
            let next_sql = match demand {
                DictDemand::Prepare { sql } => sql,
                _ => sql,
            };
            if dict_answers_left(next) < dict_answers_left(stage) {
                dict_drive(source, next, next_demand, next_sql, world)
            } else {
                arbitrary()
            }
        },
    }
}

/// Every answer brings a lookup nearer to its end, and it ends, with a demand
/// to finish, after four answers at the latest.
pub proof fn law_lookup_ends(source: Seq<char>, stage: DictStage, reply: DictReply)
    requires
        dict_expects(stage, reply),
    ensures
        dict_answers_left(dict_step(source, stage, reply).0) < dict_answers_left(stage) <= 4,
        dict_step(source, stage, reply).0 == DictStage::Finished <==> dict_step(
            source,
            stage,
            reply,
        ).1 is Finish,
{
}

/// A lookup ends with the error of opening the file; else with what the first
/// query finds under the headword; where that cannot be prepared, with what
/// the second query finds there; and where neither can be, with the error of
/// preparing the second.
pub proof fn law_lookup_outcome(source: Seq<char>, path: Seq<char>, world: DictWorld)
    ensures
        dict_drive(
            source,
            DictStage::Opening,
            DictDemand::Open { path },
            Seq::empty(),
            world,
        ) == (match (world.opened)(path) {
            Err(e) => Err(e),
            Ok(_) => match (world.prepared)(query_sql()) {
                Ok(_) => entry_found(source, (world.found)(query_sql(), headword(source))),
                Err(_) => match (world.prepared)(fallback_sql()) {
                    Ok(_) => entry_found(source, (world.found)(fallback_sql(), headword(source))),
                    Err(e) => Err(e),
                },
            },
        }),
{
    reveal_with_fuel(dict_drive, 5);
}

/// White space round a text makes no difference to the word that is looked up.
pub proof fn law_headword_ignores_surrounding_space(source: Seq<char>)
    ensures
        headword(text::trimmed(source)) == headword(source),
{
    text::law_trim_idempotent(source);
}

/// A translation without a backslash is shown as it stands in the dictionary.
pub proof fn law_unescaped_keeps_plain_text(s: Seq<char>)
    requires
        !s.contains('\\'),
    ensures
        unescaped(s) == s,
{
    reveal_strlit("\\n");
    reveal_strlit("\\r");
    text::law_replace_absent(s, "\\n"@, "\n"@);
    text::law_replace_absent(s, "\\r"@, ""@);
}

/// The word that is looked up is the stretch of the text between its outermost
/// white space, every character of it, in lower case.
pub proof fn law_headword_is_the_stretch(source: Seq<char>, i: int, j: int)
    requires
        text::bare_stretch(source, i, j),
    ensures
        headword(source) == text::lower_case(source.subrange(i, j)),
{
    text::law_trim_keeps_the_stretch(source, i, j);
}

/// A text without white space at its ends is looked up whole.
pub proof fn law_headword_of_bare_text(source: Seq<char>)
    requires
        source.len() > 0,
        !text::is_white_space(source[0]),
        !text::is_white_space(source.last()),
    ensures
        headword(source) == text::lower_case(source),
{
    law_headword_is_the_stretch(source, 0, source.len() as int);
    assert(source.subrange(0, source.len() as int) =~= source);
}

proof fn lemma_keeps_other_pair(x: char, y: char, t: Seq<char>, to: Seq<char>)
    requires
        x != y,
        y != '\\',
    ensures
        text::replaced(seq!['\\', x] + t, seq!['\\', y], to) == seq!['\\'] + text::replaced(
            seq![x] + t,
            seq!['\\', y],
            to,
        ),
        x != '\\' ==> text::replaced(seq!['\\', x] + t, seq!['\\', y], to) == seq!['\\', x]
            + text::replaced(t, seq!['\\', y], to),
{
    let s = seq!['\\', x] + t;
    let from = seq!['\\', y];
    assert(s[1] == x);
    assert(from[1] == y);
    if from.is_prefix_of(s) {
        assert(s.subrange(0, 2)[1] == s[1]);
    }
    assert(s.skip(1) =~= seq![x] + t);
    if x != '\\' {
        text::law_replace_skips(seq![x], t, from, to);
        assert(seq!['\\'] + (seq![x] + text::replaced(t, from, to)) =~= seq!['\\', x]
            + text::replaced(t, from, to));
    }
}

proof fn lemma_replaces_pair(y: char, t: Seq<char>, to: Seq<char>)
    ensures
        text::replaced(seq!['\\', y] + t, seq!['\\', y], to) == to + text::replaced(
            t,
            seq!['\\', y],
            to,
        ),
{
    let s = seq!['\\', y] + t;
    assert(s.subrange(0, 2) =~= seq!['\\', y]);
    assert(s.skip(2) =~= t);
}

proof fn lemma_patterns()
    ensures
        "\\n"@ == seq!['\\', 'n'],
        "\\r"@ == seq!['\\', 'r'],
        "\n"@ == seq!['\n'],
        ""@ == Seq::<char>::empty(),
{
    reveal_strlit("\\n");
    reveal_strlit("\\r");
    reveal_strlit("\n");
    reveal_strlit("");
    assert("\\n"@ =~= seq!['\\', 'n']);
    assert("\\r"@ =~= seq!['\\', 'r']);
    assert("\n"@ =~= seq!['\n']);
    assert(""@ =~= Seq::<char>::empty());
}

proof fn lemma_unescaped_keeps_beginning(a: Seq<char>, t: Seq<char>)
    requires
        !a.contains('\\'),
    ensures
        unescaped(a + t) == a + unescaped(t),
{
    lemma_patterns();
    text::law_replace_skips(a, t, "\\n"@, "\n"@);
    text::law_replace_skips(a, text::replaced(t, "\\n"@, "\n"@), "\\r"@, ""@);
}

/// A translation is shown with a line break for each backslash that an `n`
/// follows, with nothing for each that an `r` follows, and otherwise as it
/// stands in the dictionary, whatever precedes and follows.
pub proof fn law_unescaped_by_characters(a: Seq<char>, c: char, t: Seq<char>)
    requires
        !a.contains('\\'),
    ensures
        unescaped(a + t) == a + unescaped(t),
        unescaped(a + seq!['\\', 'n'] + t) == a + seq!['\n'] + unescaped(t),
        unescaped(a + seq!['\\', 'r'] + t) == a + unescaped(t),
        c != 'n' && c != 'r' && c != '\\' ==> unescaped(a + seq!['\\', c] + t) == a + seq![
            '\\',
            c,
        ] + unescaped(t),
        unescaped(a + seq!['\\', '\\'] + t) == a + seq!['\\'] + unescaped(seq!['\\'] + t),
        unescaped(a + seq!['\\']) == a + seq!['\\'],
        unescaped(a) == a,
{
    lemma_patterns();
    let n = "\\n"@;
    let r = "\\r"@;
    let once = text::replaced(t, n, "\n"@);
    lemma_unescaped_keeps_beginning(a, t);
    law_unescaped_keeps_plain_text(a);
    // A line break.
    let u = seq!['\\', 'n'] + t;
    lemma_unescaped_keeps_beginning(a, u);
    lemma_replaces_pair('n', t, "\n"@);
    text::law_replace_skips(seq!['\n'], once, r, ""@);
    assert(a + seq!['\\', 'n'] + t =~= a + u);
    assert(a + (seq!['\n'] + unescaped(t)) =~= a + seq!['\n'] + unescaped(t));
    // Nothing.
    let u = seq!['\\', 'r'] + t;
    lemma_unescaped_keeps_beginning(a, u);
    lemma_keeps_other_pair('r', 'n', t, "\n"@);
    lemma_replaces_pair('r', once, ""@);
    assert(a + seq!['\\', 'r'] + t =~= a + u);
    assert(""@ + unescaped(t) =~= unescaped(t));
    // Any other character.
    if c != 'n' && c != 'r' && c != '\\' {
        let u = seq!['\\', c] + t;
        lemma_unescaped_keeps_beginning(a, u);
        lemma_keeps_other_pair(c, 'n', t, "\n"@);
        lemma_keeps_other_pair(c, 'r', once, ""@);
        assert(a + seq!['\\', c] + t =~= a + u);
        assert(a + (seq!['\\', c] + unescaped(t)) =~= a + seq!['\\', c] + unescaped(t));
    }
    // A backslash.
    let rest = seq!['\\'] + t;
    let u = seq!['\\', '\\'] + t;
    lemma_unescaped_keeps_beginning(a, u);
    lemma_keeps_other_pair('\\', 'n', t, "\n"@);
    let later = text::replaced(rest, n, "\n"@);
    let first = seq!['\\'] + later;
    assert(text::replaced(u, n, "\n"@) == first);
    assert(later.len() > 0 && later[0] != 'r') by {
        if n.is_prefix_of(rest) {
            assert(later[0] == '\n');
        } else {
            assert(later[0] == '\\');
        }
    }
    assert(!r.is_prefix_of(first)) by {
        if r.is_prefix_of(first) {
            assert(first.subrange(0, 2)[1] == first[1]);
        }
    }
    assert(first.skip(1) =~= later);
    assert(a + seq!['\\', '\\'] + t =~= a + u);
    assert(a + (seq!['\\'] + unescaped(rest)) =~= a + seq!['\\'] + unescaped(rest));
    // The end.
    let end = seq!['\\'];
    lemma_unescaped_keeps_beginning(a, end);
    assert(text::replaced(end, n, "\n"@) == end);
    assert(text::replaced(end, r, ""@) == end);
}

/// A row of the dictionary becomes an entry of the text that was looked up,
/// with its pronunciation unless that is missing or empty, and its translation
/// in full, no error and not the model's.
pub proof fn law_entry_shows_row(source: Seq<char>, row: Row)
    ensures
        ({
            let shown = row_outcome(source, row);
            &&& shown.source == source
            &&& (row.phonetic matches Some(Some(p)) && p.len() > 0) ==> shown.phonetic
                == row.phonetic->0
            &&& !(row.phonetic matches Some(Some(p)) && p.len() > 0) ==> shown.phonetic is None
            &&& row.translation matches Some(t) ==> shown.translation == unescaped(t)
            &&& row.translation is None ==> shown.translation.len() == 0
            &&& !shown.is_llm
            &&& !shown.is_error
        }),
{
    law_unescaped_keeps_plain_text(Seq::empty());
}

/// A text that the first query finds under its stretch in lower case is
/// answered with the row that was found; one that is not found with nothing;
/// and where only the second query can be prepared, it counts as the first.
pub proof fn law_lookup_finds_stretch(
    source: Seq<char>,
    path: Seq<char>,
    world: DictWorld,
    i: int,
    j: int,
)
    requires
        text::bare_stretch(source, i, j),
        (world.opened)(path) is Ok,
        (world.prepared)(query_sql()) is Ok || (world.prepared)(fallback_sql()) is Ok,
    ensures
        ({
            let sql = if (world.prepared)(query_sql()) is Ok {
                query_sql()
            } else {
                fallback_sql()
            };
            let end = dict_drive(
                source,
                DictStage::Opening,
                DictDemand::Open { path },
                Seq::empty(),
                world,
            );
            match (world.found)(sql, text::lower_case(source.subrange(i, j))) {
                Ok(Some(row)) => end matches Ok(Some(shown)) && {
                    &&& shown.source == source
                    &&& (row.translation matches Some(t) && !t.contains('\\'))
                        ==> shown.translation == row.translation->0
                    &&& (row.phonetic matches Some(Some(p)) && p.len() > 0) ==> shown.phonetic
                        == row.phonetic->0
                    &&& !shown.is_llm && !shown.is_error
                },
                Ok(None) => end == Ok::<Option<Outcome>, Seq<char>>(None),
                Err(e) => end == Err::<Option<Outcome>, Seq<char>>(e),
            }
        }),
{
    law_lookup_outcome(source, path, world);
    law_headword_is_the_stretch(source, i, j);
    let sql = if (world.prepared)(query_sql()) is Ok {
        query_sql()
    } else {
        fallback_sql()
    };
    if let Ok(Some(row)) = (world.found)(sql, headword(source)) {
        law_entry_shows_row(source, row);
        if row.translation is Some && !row.translation->0.contains('\\') {
            law_unescaped_keeps_plain_text(row.translation->0);
        }
    }
}

} // verus!
