//! Which of the dictionary and the language model translates a text, and what
//! the user is told of the outcome.
use vstd::prelude::*;

use crate::llm::{fault_message, Fault, LlmError};
use crate::text;
use crate::translator::{failure, outcome_of, Outcome, TranslateResult};

verus! {

/// Who is asked, and after whom.
#[derive(Clone, Copy, PartialEq, Eq, Structural, Debug)]
pub enum RouteStage {
    /// A word is looked up before the model is asked, if it may be.
    DictFirst,
    /// A word that the dictionary lacks.
    LlmAfterDict,
    /// A sentence goes to the model first.
    LlmFirst,
    /// A sentence that the model failed on.
    DictAfterLlm,
    /// A sentence, while the model is switched off.
    DictOnly,
    Finished,
}

/// What the dictionary or the model came to.
pub enum RouteEvent {
    LookedUp(Result<Option<TranslateResult>, String>),
    Asked(Result<Option<TranslateResult>, LlmError>),
}

/// Who is asked next.
pub enum RouteAction {
    LookUp,
    Ask,
    /// The result to show, if there is any.
    Finish(Option<TranslateResult>),
}

/// The contents of a [`RouteEvent`].
pub enum RouteReply {
    LookedUp(Result<Option<Outcome>, Seq<char>>),
    Asked(Result<Option<Outcome>, Fault>),
}

/// The contents of a [`RouteAction`].
pub enum RouteDemand {
    LookUp,
    Ask,
    Finish(Option<Outcome>),
}

impl View for RouteEvent {
    type V = RouteReply;

    open spec fn view(&self) -> RouteReply {
        match *self {
            RouteEvent::LookedUp(Ok(r)) => RouteReply::LookedUp(Ok(outcome_of(r))),
            RouteEvent::LookedUp(Err(e)) => RouteReply::LookedUp(Err(e@)),
            RouteEvent::Asked(Ok(r)) => RouteReply::Asked(Ok(outcome_of(r))),
            RouteEvent::Asked(Err(e)) => RouteReply::Asked(Err(e@)),
        }
    }
}

impl View for RouteAction {
    type V = RouteDemand;

    open spec fn view(&self) -> RouteDemand {
        match *self {
            RouteAction::LookUp => RouteDemand::LookUp,
            RouteAction::Ask => RouteDemand::Ask,
            RouteAction::Finish(r) => RouteDemand::Finish(outcome_of(r)),
        }
    }
}

/// The course of one translation.
pub struct Route {
    text: String,
    llm_enabled: bool,
    stage: RouteStage,
    complaint: String,
}

/// The contents of a [`Route`].
pub struct Course {
    pub source: Seq<char>,
    pub llm_enabled: bool,
    pub stage: RouteStage,
    /// What the model failed with.
    pub complaint: Seq<char>,
}

impl View for Route {
    type V = Course;

    closed spec fn view(&self) -> Course {
        Course {
            source: self.text@,
            llm_enabled: self.llm_enabled,
            stage: self.stage,
            complaint: self.complaint@,
        }
    }
}

/// The complaint about a model that answered with nothing.
pub open spec fn no_translation() -> Seq<char> {
    "大模型没有返回翻译结果"@
}

/// The complaint about what the model came to, where it is no translation.
pub open spec fn complaint_of(asked: Result<Option<Outcome>, Fault>) -> Seq<char> {
    match asked {
        Ok(_) => no_translation(),
        Err(e) => fault_message(e),
    }
}

/// The stage at which a translation begins.
pub open spec fn first_stage(source: Seq<char>, llm_enabled: bool) -> RouteStage {
    if !text::reads_as_sentence(source) {
        RouteStage::DictFirst
    } else if llm_enabled {
        RouteStage::LlmFirst
    } else {
        RouteStage::DictOnly
    }
}

/// Who is asked at `stage`.
pub open spec fn demand_at(stage: RouteStage) -> RouteDemand {
    match stage {
        RouteStage::LlmAfterDict => RouteDemand::Ask,
        RouteStage::LlmFirst => RouteDemand::Ask,
        _ => RouteDemand::LookUp,
    }
}

/// Whether `reply` comes from the one who was asked at `stage`.
pub open spec fn route_expects(stage: RouteStage, reply: RouteReply) -> bool {
    match stage {
        RouteStage::Finished => false,
        _ => (reply is Asked) == (demand_at(stage) is Ask),
    }
}

/// The next state of a translation, and who is asked next.
pub open spec fn route_step(course: Course, reply: RouteReply) -> (Course, RouteDemand) {
    let finished = Course { stage: RouteStage::Finished, ..course };
    match reply {
        RouteReply::LookedUp(Ok(Some(r))) => (finished, RouteDemand::Finish(Some(r))),
        RouteReply::LookedUp(_) => match course.stage {
            RouteStage::DictFirst if course.llm_enabled => (
                Course { stage: RouteStage::LlmAfterDict, ..course },
                RouteDemand::Ask,
            ),
            RouteStage::DictAfterLlm => (
                finished,
                RouteDemand::Finish(Some(failure(course.source, course.complaint))),
            ),
            _ => (finished, RouteDemand::Finish(None)),
        },
        RouteReply::Asked(Ok(Some(r))) => (finished, RouteDemand::Finish(Some(r))),
        RouteReply::Asked(other) => if course.stage == RouteStage::LlmFirst {
            (
                Course {
                    stage: RouteStage::DictAfterLlm,
                    complaint: complaint_of(other),
                    ..course
                },
                RouteDemand::LookUp,
            )
        } else {
            (
                finished,
                RouteDemand::Finish(Some(failure(course.source, complaint_of(other)))),
            )
        },
    }
}

impl Route {
    /// Begins the translation of `text`: its course, and who is asked first.
    pub fn new(text: &str, llm_enabled: bool) -> (r: (Route, RouteAction))
        ensures
            r.0@ == (Course {
                source: text@,
                llm_enabled,
                stage: first_stage(text@, llm_enabled),
                complaint: Seq::empty(),
            }),
            r.1@ == demand_at(first_stage(text@, llm_enabled)),
    {
        let stage: RouteStage = if !text::is_sentence(text) {
            RouteStage::DictFirst
        } else if llm_enabled {
            RouteStage::LlmFirst
        } else {
            RouteStage::DictOnly
        };
        let action: RouteAction = match stage {
            RouteStage::LlmFirst => RouteAction::Ask,
            _ => RouteAction::LookUp,
        };
        (Route { text: text.to_owned(), llm_enabled, stage, complaint: String::new() }, action)
    }

    fn fail(&mut self, complaint: String) -> (action: RouteAction)
        requires
            demand_at(old(self)@.stage) is Ask,
        ensures
            old(self)@.stage == RouteStage::LlmFirst ==> action@ == RouteDemand::LookUp
                && final(self)@ == (Course {
                stage: RouteStage::DictAfterLlm,
                complaint: complaint@,
                ..old(self)@
            }),
            old(self)@.stage != RouteStage::LlmFirst ==> action@ == RouteDemand::Finish(
                Some(failure(old(self)@.source, complaint@)),
            ) && final(self)@ == (Course { stage: RouteStage::Finished, ..old(self)@ }),
    {
        if self.stage == RouteStage::LlmFirst {
            self.stage = RouteStage::DictAfterLlm;
            self.complaint = complaint;
            RouteAction::LookUp
        } else {
            self.stage = RouteStage::Finished;
            RouteAction::Finish(Some(TranslateResult::error(self.text.as_str(), complaint)))
        }
    }

    /// Takes what was come to, and says who is asked next.
    pub fn step(&mut self, event: RouteEvent) -> (action: RouteAction)
        requires
            route_expects(old(self)@.stage, event@),
        ensures
            (final(self)@, action@) == route_step(old(self)@, event@),
    {
        match event {
            RouteEvent::LookedUp(Ok(Some(r))) => {
                self.stage = RouteStage::Finished;
                RouteAction::Finish(Some(r))
            },
            RouteEvent::LookedUp(_) => {
                if self.stage == RouteStage::DictFirst && self.llm_enabled {
                    self.stage = RouteStage::LlmAfterDict;
                    RouteAction::Ask
                } else if self.stage == RouteStage::DictAfterLlm {
                    self.stage = RouteStage::Finished;
                    RouteAction::Finish(
                        Some(TranslateResult::error(self.text.as_str(), self.complaint.clone())),
                    )
                } else {
                    self.stage = RouteStage::Finished;
                    RouteAction::Finish(None)
                }
            },
            RouteEvent::Asked(Ok(Some(r))) => {
                self.stage = RouteStage::Finished;
                RouteAction::Finish(Some(r))
            },
            RouteEvent::Asked(Ok(None)) => self.fail("大模型没有返回翻译结果".to_owned()),
            RouteEvent::Asked(Err(e)) => self.fail(e.message()),
        }
    }
}

/// A short message outside the popup.
pub struct Notice {
    pub title: &'static str,
    pub body: String,
}

/// What the user sees of a finished translation.
pub struct Announcement {
    pub notice: Option<Notice>,
    /// The result for the popup, if there is one.
    pub shown: Option<TranslateResult>,
}

/// The contents of a [`Notice`].
pub struct Told {
    pub title: Seq<char>,
    pub body: Seq<char>,
}

impl View for Notice {
    type V = Told;

    open spec fn view(&self) -> Told {
        Told { title: self.title@, body: self.body@ }
    }
}

/// What the user is told outside the popup of a finished translation.
pub open spec fn told_of(result: Option<Outcome>) -> Option<Told> {
    match result {
        Some(found) => if found.is_error {
            Some(Told { title: "大模型翻译失败"@, body: found.translation })
        } else {
            None
        },
        None => Some(Told { title: "查询结果"@, body: "翻译失败或词库中没有这个词"@ }),
    }
}

/// Announces a finished translation: a failure with a notice and in the
/// popup, a translation in the popup alone, nothing found with a notice alone.
pub fn announce(result: Option<TranslateResult>) -> (r: Announcement)
    ensures
        r.shown == result,
        match result {
            Some(found) => if found.is_error {
                r.notice matches Some(n) && n.title@ == "大模型翻译失败"@ && n.body@
                    == found.translation@
            } else {
                r.notice is None
            },
            None => r.notice matches Some(n) && n.title@ == "查询结果"@ && n.body@
                == "翻译失败或词库中没有这个词"@,
        },
        told_of(outcome_of(result)) == (match r.notice {
            Some(notice) => Some(notice@),
            None => None,
        }),
{
    let notice: Option<Notice> = match &result {
        Some(found) => if found.is_error {
            Some(Notice { title: "大模型翻译失败", body: found.translation.clone() })
        } else {
            None
        },
        None => Some(
            Notice { title: "查询结果", body: "翻译失败或词库中没有这个词".to_owned() },
        ),
    };
    Announcement { notice, shown: result }
}

/// How many answers a translation at `stage` can still take.
pub open spec fn route_answers_left(stage: RouteStage) -> nat {
    match stage {
        RouteStage::DictFirst => 2,
        RouteStage::LlmFirst => 2,
        RouteStage::LlmAfterDict => 1,
        RouteStage::DictAfterLlm => 1,
        RouteStage::DictOnly => 1,
        RouteStage::Finished => 0,
    }
}

/// What a translation ends with where the dictionary and the model come to
/// `looked_up` and `asked`.
pub open spec fn route_drive(
    course: Course,
    looked_up: Result<Option<Outcome>, Seq<char>>,
    asked: Result<Option<Outcome>, Fault>,
) -> Option<Outcome>
    decreases route_answers_left(course.stage),
{
    let reply = if demand_at(course.stage) is Ask {
        RouteReply::Asked(asked)
    } else {
        RouteReply::LookedUp(looked_up)
    };
    let (next, demand) = route_step(course, reply);
    match demand {
        RouteDemand::Finish(r) => r,
        _ => if route_answers_left(next.stage) < route_answers_left(course.stage) {
            route_drive(next, looked_up, asked)
        } else {
            arbitrary()
        },
    }
}

/// Every answer brings a translation nearer to its end, which comes after two
/// answers at the latest; and no one is asked a second time.
pub proof fn law_route_ends(course: Course, reply: RouteReply)
    requires
        route_expects(course.stage, reply),
    ensures
        ({
            let (next, demand) = route_step(course, reply);
            &&& route_answers_left(next.stage) < route_answers_left(course.stage) <= 2
            &&& next.stage == RouteStage::Finished <==> demand is Finish
            &&& next.source == course.source && next.llm_enabled == course.llm_enabled
            &&& next.stage != RouteStage::Finished ==> demand == demand_at(next.stage) && demand
                != demand_at(course.stage) && route_answers_left(next.stage) == 1
        }),
{
}

/// The model is not asked while it is switched off, at the first question or
/// any later one.
pub proof fn law_model_asked_only_if_enabled(source: Seq<char>, course: Course, reply: RouteReply)
    requires
        !course.llm_enabled,
    ensures
        !(demand_at(first_stage(source, false)) is Ask),
        !(route_step(course, reply).1 is Ask),
{
}

/// The outcome of every translation. A word: the dictionary's entry; failing
/// that, with the model switched on, what the model makes of it, if only a
/// failure; else nothing. A sentence: with the model switched on, its
/// translation; failing that the dictionary's entry, and failing that the
/// model's failure; with the model switched off, the dictionary's entry or
/// nothing.
pub proof fn law_route_outcome(
    course: Course,
    looked_up: Result<Option<Outcome>, Seq<char>>,
    asked: Result<Option<Outcome>, Fault>,
)
    requires
        course.stage == first_stage(course.source, course.llm_enabled),
    ensures
        ({
            let entry = match looked_up {
                Ok(Some(r)) => Some(r),
                _ => None::<Outcome>,
            };
            let answer = match asked {
                Ok(Some(r)) => Some(r),
                _ => None::<Outcome>,
            };
            let failed = Some(failure(course.source, complaint_of(asked)));
            route_drive(course, looked_up, asked) == if !course.llm_enabled {
                entry
            } else if text::reads_as_sentence(course.source) {
                if answer is Some {
                    answer
                } else if entry is Some {
                    entry
                } else {
                    failed
                }
            } else {
                if entry is Some {
                    entry
                } else if answer is Some {
                    answer
                } else {
                    failed
                }
            }
        }),
{
    reveal_with_fuel(route_drive, 2);
}

/// With the model switched on every translation shows something.
pub proof fn law_enabled_model_always_shows(
    course: Course,
    looked_up: Result<Option<Outcome>, Seq<char>>,
    asked: Result<Option<Outcome>, Fault>,
)
    requires
        course.stage == first_stage(course.source, course.llm_enabled),
        course.llm_enabled,
    ensures
        route_drive(course, looked_up, asked) is Some,
{
    law_route_outcome(course, looked_up, asked);
}

/// Who is asked first, by the characters of the text: the model exactly if it
/// is switched on and the text holds punctuation or is parted twice by white
/// space, else the dictionary, however long the text is.
pub proof fn law_first_question_by_characters(source: Seq<char>, llm_enabled: bool)
    ensures
        ({
            let sentence = (exists|i: int|
                0 <= i < source.len() && text::is_punctuation(#[trigger] source[i])) || (exists|
                i: int,
                p: int,
                j: int,
                q: int,
                k: int,
            |
                text::parted_twice(source, i, p, j, q, k));
            demand_at(first_stage(source, llm_enabled)) == if llm_enabled && sentence {
                RouteDemand::Ask
            } else {
                RouteDemand::LookUp
            }
        }),
{
    text::law_sentence_by_characters(source);
}

/// A single word without punctuation is looked up first, and what the
/// dictionary has of it is shown, whatever the model would say.
pub proof fn law_word_goes_to_the_dictionary(
    course: Course,
    entry: Outcome,
    asked: Result<Option<Outcome>, Fault>,
)
    requires
        forall|i: int|
            0 <= i < course.source.len() ==> !text::is_white_space(#[trigger] course.source[i])
                && !text::is_punctuation(course.source[i]),
        course.stage == first_stage(course.source, course.llm_enabled),
    ensures
        demand_at(course.stage) == RouteDemand::LookUp,
        route_drive(course, Ok(Some(entry)), asked) == Some(entry),
{
    law_first_question_by_characters(course.source, course.llm_enabled);
    law_route_outcome(course, Ok(Some(entry)), asked);
    text::law_sentence_by_characters(course.source);
}

/// A text with punctuation goes to the model first where it is switched on,
/// and what the model says of it is shown, whatever the dictionary has.
pub proof fn law_sentence_goes_to_the_model(
    course: Course,
    at: int,
    looked_up: Result<Option<Outcome>, Seq<char>>,
    answer: Outcome,
)
    requires
        course.llm_enabled,
        0 <= at < course.source.len(),
        text::is_punctuation(course.source[at]),
        course.stage == first_stage(course.source, course.llm_enabled),
    ensures
        demand_at(course.stage) == RouteDemand::Ask,
        route_drive(course, looked_up, Ok(Some(answer))) == Some(answer),
{
    law_first_question_by_characters(course.source, course.llm_enabled);
    law_route_outcome(course, looked_up, Ok(Some(answer)));
    text::law_sentence_by_characters(course.source);
}

/// With the model switched on, a text that neither can translate ends with an
/// error about that text, in the words of the model's failure, or in fixed
/// words where it had none; and with the model switched off, with nothing.
pub proof fn law_failure_is_shown(course: Course, e: Seq<char>, fault: Fault)
    requires
        course.stage == first_stage(course.source, course.llm_enabled),
    ensures
        !course.llm_enabled ==> route_drive(course, Err(e), Err(fault)) is None && route_drive(
            course,
            Ok(None),
            Err(fault),
        ) is None,
        course.llm_enabled ==> route_drive(course, Err(e), Err(fault)) == route_drive(
            course,
            Ok(None),
            Err(fault),
        ),
        course.llm_enabled ==> (route_drive(course, Ok(None), Err(fault)) matches Some(shown) && {
            &&& shown.source == course.source
            &&& shown.translation == fault_message(fault)
            &&& shown.phonetic is None
            &&& shown.is_error
        }),
        course.llm_enabled ==> (route_drive(course, Ok(None), Ok(None)) matches Some(shown) && {
            &&& shown.source == course.source
            &&& shown.translation == "大模型没有返回翻译结果"@
            &&& shown.phonetic is None
            &&& shown.is_error
        }),
{
    law_route_outcome(course, Err(e), Err(fault));
    law_route_outcome(course, Ok(None), Err(fault));
    law_route_outcome(course, Ok(None), Ok(None));
}

/// The first translation that is found ends the course, and is what is shown.
pub proof fn law_found_is_shown_at_once(course: Course, found: Outcome)
    ensures
        route_step(course, RouteReply::LookedUp(Ok(Some(found)))).1 == RouteDemand::Finish(
            Some(found),
        ),
        route_step(course, RouteReply::Asked(Ok(Some(found)))).1 == RouteDemand::Finish(
            Some(found),
        ),
{
}

/// A translation is not told outside the popup; a failure is, in all of its
/// words, and so is that nothing was found.
pub proof fn law_only_failures_are_told(found: Outcome)
    ensures
        told_of(Some(found)) is None <==> !found.is_error,
        told_of(Some(found)) matches Some(told) ==> told.body == found.translation && told.title
            == "大模型翻译失败"@,
        told_of(None) matches Some(told) && told.title == "查询结果"@ && told.body
            == "翻译失败或词库中没有这个词"@,
{
}

} // verus!
