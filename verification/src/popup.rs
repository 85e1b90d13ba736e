//! What the popup shows.
use vstd::prelude::*;
use vstd::string::*;

use crate::text;
use crate::translator::{text_of, TranslateResult};

verus! {

/// The length of the preview of a source text, in characters.
pub const PREVIEW_CHARS: usize = 120;

/// An opaque colour.
#[derive(Clone, Copy, PartialEq, Eq, Structural, Debug)]
pub struct Rgb {
    pub r: u8,
    pub g: u8,
    pub b: u8,
}

/// The heading of the popup and its colour.
#[derive(Clone, Copy, Debug)]
pub struct Theme {
    pub title: &'static str,
    pub subtitle: &'static str,
    pub accent: Rgb,
}

/// The contents of a [`Theme`].
pub struct Look {
    pub title: Seq<char>,
    pub subtitle: Seq<char>,
    pub accent: Rgb,
}

impl View for Theme {
    type V = Look;

    open spec fn view(&self) -> Look {
        Look { title: self.title@, subtitle: self.subtitle@, accent: self.accent }
    }
}

/// The look of a result: red for a failure, blue for the language model,
/// green for the dictionary.
pub open spec fn look_of(is_error: bool, is_llm: bool) -> Look {
    if is_error {
        Look {
            title: "大模型翻译失败"@,
            subtitle: "请求未完成"@,
            accent: Rgb { r: 196, g: 61, b: 58 },
        }
    } else if is_llm {
        Look {
            title: "大模型翻译"@,
            subtitle: "智能翻译"@,
            accent: Rgb { r: 40, g: 112, b: 198 },
        }
    } else {
        Look {
            title: "本地词典"@,
            subtitle: "离线词库"@,
            accent: Rgb { r: 43, g: 132, b: 101 },
        }
    }
}

/// The look of a result.
pub fn result_theme(result: &TranslateResult) -> (r: Theme)
    ensures
        r@ == look_of(result.is_error, result.is_llm),
{
    if result.is_error {
        Theme {
            title: "大模型翻译失败",
            subtitle: "请求未完成",
            accent: Rgb { r: 196, g: 61, b: 58 },
        }
    } else if result.is_llm {
        Theme {
            title: "大模型翻译",
            subtitle: "智能翻译",
            accent: Rgb { r: 40, g: 112, b: 198 },
        }
    } else {
        Theme {
            title: "本地词典",
            subtitle: "离线词库",
            accent: Rgb { r: 43, g: 132, b: 101 },
        }
    }
}

/// What the popup shows of the source text.
#[derive(Debug)]
pub enum Source {
    /// The word in full, with its pronunciation in brackets.
    Word { word: String, phonetic: Option<String> },
    /// The beginning of a longer text.
    Preview(String),
}

/// What the popup shows, from top to bottom. Sizes are in tenths of a point.
#[derive(Debug)]
pub struct PopupContent {
    pub theme: Theme,
    pub source: Source,
    pub body: String,
    pub body_color: Rgb,
    pub body_size: u32,
}

/// The contents of a [`Source`].
pub enum SourceShown {
    Word { word: Seq<char>, phonetic: Option<Seq<char>> },
    Preview(Seq<char>),
}

impl View for Source {
    type V = SourceShown;

    open spec fn view(&self) -> SourceShown {
        match *self {
            Source::Word { word, phonetic } => SourceShown::Word {
                word: word@,
                phonetic: text_of(phonetic),
            },
            Source::Preview(t) => SourceShown::Preview(t@),
        }
    }
}

/// The text colour of the popup.
pub open spec fn text_color() -> Rgb {
    Rgb { r: 30, g: 34, b: 40 }
}

/// What the popup shows of the source text of a result.
pub open spec fn source_shown(result: TranslateResult) -> SourceShown {
    if !result.is_llm && !result.is_error {
        SourceShown::Word {
            word: result.source_text@,
            phonetic: match result.phonetic {
                Some(p) => Some("["@ + p@ + "]"@),
                None => None,
            },
        }
    } else {
        SourceShown::Preview(text::previewed(result.source_text@, PREVIEW_CHARS as nat))
    }
}

/// The contents of a [`PopupContent`].
pub struct ContentShown {
    pub look: Look,
    pub source: SourceShown,
    pub body: Seq<char>,
    pub body_color: Rgb,
    pub body_size: u32,
}

impl View for PopupContent {
    type V = ContentShown;

    open spec fn view(&self) -> ContentShown {
        ContentShown {
            look: self.theme@,
            source: self.source@,
            body: self.body@,
            body_color: self.body_color,
            body_size: self.body_size,
        }
    }
}

/// What the popup shows of a result, from top to bottom.
pub open spec fn content_shown(result: TranslateResult) -> ContentShown {
    ContentShown {
        look: look_of(result.is_error, result.is_llm),
        source: source_shown(result),
        body: result.translation@,
        body_color: if result.is_error {
            Rgb { r: 112, g: 38, b: 38 }
        } else {
            text_color()
        },
        body_size: if result.is_llm {
            150
        } else {
            140
        },
    }
}

/// What the popup shows of a result.
pub fn popup_content(result: &TranslateResult) -> (r: PopupContent)
    ensures
        r.theme@ == look_of(result.is_error, result.is_llm),
        r.source@ == source_shown(*result),
        r.body@ == result.translation@,
        r.body_color == (if result.is_error {
            Rgb { r: 112, g: 38, b: 38 }
        } else {
            text_color()
        }),
        r.body_size == (if result.is_llm {
            150u32
        } else {
            140u32
        }),
        r@ == content_shown(*result),
{
    let source: Source = if !result.is_llm && !result.is_error {
        Source::Word {
            word: result.source_text.clone(),
            phonetic: match &result.phonetic {
                Some(p) => {
                    let mut bracketed: String = "[".to_owned();
                    bracketed.append(p.as_str());
                    bracketed.append("]");
                    Some(bracketed)
                },
                None => None,
            },
        }
    } else {
        Source::Preview(text::preview_text(result.source_text.as_str(), PREVIEW_CHARS))
    };
    PopupContent {
        theme: result_theme(result),
        source,
        body: result.translation.clone(),
        body_color: if result.is_error {
            Rgb { r: 112, g: 38, b: 38 }
        } else {
            Rgb { r: 30, g: 34, b: 40 }
        },
        body_size: if result.is_llm {
            150
        } else {
            140
        },
    }
}

/// The popup never shows more of a long source text than its preview: at most
/// the limit and three dots.
pub proof fn law_preview_in_popup_bounded(result: TranslateResult)
    ensures
        source_shown(result) matches SourceShown::Preview(t) ==> t.len() <= PREVIEW_CHARS + 3,
{
    text::law_preview_bounded(result.source_text@, PREVIEW_CHARS as nat);
}

/// Of an entry of the dictionary the popup shows the whole word and the whole
/// pronunciation, in brackets, where there is one.
pub proof fn law_popup_shows_word(result: TranslateResult)
    requires
        !result.is_llm,
        !result.is_error,
    ensures
        source_shown(result) matches SourceShown::Word { word, phonetic } && {
            &&& word == result.source_text@
            &&& result.phonetic is None ==> phonetic is None
            &&& result.phonetic is Some ==> (phonetic matches Some(shown) && {
                let p = result.phonetic->0@;
                &&& shown.len() == p.len() + 2
                &&& shown[0] == '['
                &&& shown.subrange(1, 1int + p.len()) == p
                &&& shown.last() == ']'
            })
        },
{
    reveal_strlit("[");
    reveal_strlit("]");
    if result.phonetic is Some {
        let p = result.phonetic->0@;
        let shown = "["@ + p + "]"@;
        assert(shown.subrange(1, 1int + p.len()) =~= p);
    }
}

/// Of what the model said, or failed on, the popup shows the stretch of the
/// source text between its outermost white space where that is no longer than
/// 120 characters, else its first 120 characters and three dots.
pub proof fn law_popup_shows_preview(result: TranslateResult, i: int, j: int)
    requires
        result.is_llm || result.is_error,
        text::bare_stretch(result.source_text@, i, j),
    ensures
        source_shown(result) == SourceShown::Preview(
            if j - i <= 120 {
                result.source_text@.subrange(i, j)
            } else {
                result.source_text@.subrange(i, i + 120) + seq!['.', '.', '.']
            },
        ),
{
    text::law_preview_of_stretch(result.source_text@, PREVIEW_CHARS as nat, i, j);
}

/// The heading tells a failure, an answer of the model and an entry of the
/// dictionary apart, by its title, its subtitle and its colour; a failure is
/// headed the same whoever failed.
pub proof fn law_headings_differ(is_llm: bool)
    ensures
        look_of(true, is_llm) == look_of(true, !is_llm),
        look_of(true, is_llm).title == "大模型翻译失败"@,
        look_of(false, true).title == "大模型翻译"@,
        look_of(false, false).title == "本地词典"@,
        look_of(true, is_llm).accent != look_of(false, true).accent,
        look_of(true, is_llm).accent != look_of(false, false).accent,
        look_of(false, true).accent != look_of(false, false).accent,
{
}

/// The popup shows the whole translation, or the whole message of a failure,
/// however long it is; a failure in another colour, what the model said in a
/// larger size.
pub proof fn law_popup_shows_whole_translation(a: TranslateResult, b: TranslateResult)
    ensures
        content_shown(a).body.len() == a.translation@.len(),
        forall|i: int|
            0 <= i < a.translation@.len() ==> content_shown(a).body[i] == #[trigger] a.translation@[i],
        content_shown(a).body_color == content_shown(b).body_color <==> a.is_error == b.is_error,
        a.is_llm && !b.is_llm ==> content_shown(a).body_size > content_shown(b).body_size,
        a.is_llm == b.is_llm ==> content_shown(a).body_size == content_shown(b).body_size,
        a.is_error == b.is_error && a.is_llm == b.is_llm ==> content_shown(a).look
            == content_shown(b).look,
{
}

} // verus!
