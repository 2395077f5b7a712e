//! The metadata model: what a source asserts about the colour of its video,
//! each field present or absent by itself, and the chapter markers that may
//! travel with it.
use crate::mapper::{
    flag, flag_distinct, flag_marks, flag_name, light_pair, light_pair_round_trip,
    light_pair_text, read_back, share_option, value_round_trip, Field, Luminance, Value,
};
use crate::text::{contains_concat, texts};
pub use crate::parse::extract_chapters;
use crate::values::{ColorPrimaries, ColorSpace, ColorTransfer, Syntax};
use vstd::prelude::*;

verus! {

/// The colour metadata of one source. A field that is `None` is one that the
/// source does not assert; that differs from a field that holds the value
/// `Unspecified`, or a zero, which the source does assert.
#[derive(Clone, Copy, Debug, PartialEq, Eq, Structural)]
pub struct Metadata {
    pub color_space: Option<ColorSpace>,
    pub color_transfer: Option<ColorTransfer>,
    pub color_primaries: Option<ColorPrimaries>,
    pub mastering_display_min_luminance: Option<Luminance>,
    pub mastering_display_max_luminance: Option<Luminance>,
    pub max_content_light_level: Option<u64>,
    pub max_frame_average_light_level: Option<u64>,
}

/// A chapter marker: where it starts, in milliseconds from the start of the
/// file, and what it is called.
#[derive(Clone, Debug)]
pub struct Chapter {
    pub start_ms: u64,
    pub title: String,
}

/// A chapter marker as a plain value.
pub struct ChapterView {
    pub start_ms: nat,
    pub title: Seq<char>,
}

impl View for Chapter {
    type V = ChapterView;

    open spec fn view(&self) -> ChapterView {
        ChapterView { start_ms: self.start_ms as nat, title: self.title@ }
    }
}

/// The chapters of `v` as plain values, in playback order.
pub open spec fn chapter_views(v: Seq<Chapter>) -> Seq<ChapterView> {
    Seq::new(v.len(), |i: int| v[i]@)
}

impl Metadata {
    /// The model of a source that asserts nothing.
    pub open spec fn nothing() -> Metadata {
        Metadata {
            color_space: None,
            color_transfer: None,
            color_primaries: None,
            mastering_display_min_luminance: None,
            mastering_display_max_luminance: None,
            max_content_light_level: None,
            max_frame_average_light_level: None,
        }
    }

    /// What the model holds in `field`.
    pub open spec fn value(self, field: Field) -> Option<Value> {
        match field {
            Field::ColorSpace => match self.color_space {
                Some(v) => Some(Value::Space(v)),
                None => None,
            },
            Field::ColorTransfer => match self.color_transfer {
                Some(v) => Some(Value::Transfer(v)),
                None => None,
            },
            Field::ColorPrimaries => match self.color_primaries {
                Some(v) => Some(Value::Primaries(v)),
                None => None,
            },
            Field::MinLuminance => match self.mastering_display_min_luminance {
                Some(v) => Some(Value::Luminance(v)),
                None => None,
            },
            Field::MaxLuminance => match self.mastering_display_max_luminance {
                Some(v) => Some(Value::Luminance(v)),
                None => None,
            },
            Field::MaxContentLight => match self.max_content_light_level {
                Some(v) => Some(Value::Light(v)),
                None => None,
            },
            Field::MaxFrameAverageLight => match self.max_frame_average_light_level {
                Some(v) => Some(Value::Light(v)),
                None => None,
            },
        }
    }

    /// Whether the model asserts nothing at all.
    pub open spec fn is_nothing(self) -> bool {
        forall|field: Field| self.value(field) is None
    }

    /// The cell of the mapping table for `field` in `syntax`, filled in from
    /// the model: how the field's value is written, or `None` where the
    /// field is absent or the syntax cannot write it. Where two fields
    /// travel together, the cell of each holds the pair, and only when both
    /// are present: a level that the source does not assert is never made
    /// up.
    pub open spec fn cell(self, syntax: Syntax, field: Field) -> Option<Seq<char>> {
        if share_option(syntax, field, field) {
            match (self.max_content_light_level, self.max_frame_average_light_level) {
                (Some(content), Some(frame_average)) => Some(
                    light_pair(content as nat, frame_average as nat),
                ),
                _ => None,
            }
        } else {
            match self.value(field) {
                Some(v) => v.word(syntax),
                None => None,
            }
        }
    }

    /// What `field` contributes to a command line in `syntax`: its option
    /// and its written value, or nothing.
    pub open spec fn entry(self, syntax: Syntax, field: Field) -> Seq<Seq<char>> {
        match (flag(syntax, field), self.cell(syntax, field)) {
            (Some(f), Some(c)) => seq![f, c],
            _ => Seq::empty(),
        }
    }

    /// The model as command-line words in `syntax`: the entries of the
    /// fields in their order, a shared option written once.
    pub open spec fn options(self, syntax: Syntax) -> Seq<Seq<char>> {
        self.entry(syntax, Field::ColorSpace) + self.entry(syntax, Field::ColorTransfer)
            + self.entry(syntax, Field::ColorPrimaries) + self.entry(syntax, Field::MinLuminance)
            + self.entry(syntax, Field::MaxLuminance) + self.entry(
            syntax,
            Field::MaxContentLight,
        ) + if share_option(syntax, Field::MaxContentLight, Field::MaxFrameAverageLight) {
            Seq::empty()
        } else {
            self.entry(syntax, Field::MaxFrameAverageLight)
        }
    }

    /// The model of a source that asserts nothing.
    pub fn new() -> (m: Metadata)
        ensures
            m == Metadata::nothing(),
            m.is_nothing(),
    {
        Metadata {
            color_space: None,
            color_transfer: None,
            color_primaries: None,
            mastering_display_min_luminance: None,
            mastering_display_max_luminance: None,
            max_content_light_level: None,
            max_frame_average_light_level: None,
        }
    }

    /// What the model holds in `field`.
    pub fn get(&self, field: Field) -> (r: Option<Value>)
        ensures
            r == self.value(field),
    {
        match field {
            Field::ColorSpace => match self.color_space {
                Some(v) => Some(Value::Space(v)),
                None => None,
            },
            Field::ColorTransfer => match self.color_transfer {
                Some(v) => Some(Value::Transfer(v)),
                None => None,
            },
            Field::ColorPrimaries => match self.color_primaries {
                Some(v) => Some(Value::Primaries(v)),
                None => None,
            },
            Field::MinLuminance => match self.mastering_display_min_luminance {
                Some(v) => Some(Value::Luminance(v)),
                None => None,
            },
            Field::MaxLuminance => match self.mastering_display_max_luminance {
                Some(v) => Some(Value::Luminance(v)),
                None => None,
            },
            Field::MaxContentLight => match self.max_content_light_level {
                Some(v) => Some(Value::Light(v)),
                None => None,
            },
            Field::MaxFrameAverageLight => match self.max_frame_average_light_level {
                Some(v) => Some(Value::Light(v)),
                None => None,
            },
        }
    }

    /// Writes the value of `field` in `syntax`; `None` where the field is
    /// absent or the syntax cannot write it.
    pub fn cell_text(&self, syntax: Syntax, field: Field) -> (r: Option<String>)
        ensures
            r is Some <==> self.cell(syntax, field) is Some,
            r is Some ==> r->0@ == self.cell(syntax, field)->0,
    {
        let paired = match syntax {
            Syntax::X265 | Syntax::Rav1e => match field {
                Field::MaxContentLight | Field::MaxFrameAverageLight => true,
                _ => false,
            },
            _ => false,
        };
        if paired {
            match (self.max_content_light_level, self.max_frame_average_light_level) {
                (Some(content), Some(frame_average)) => Some(
                    light_pair_text(content, frame_average),
                ),
                _ => None,
            }
        } else {
            match self.get(field) {
                Some(v) => v.text(syntax),
                None => None,
            }
        }
    }

    fn push_entry(&self, out: &mut Vec<String>, syntax: Syntax, field: Field)
        ensures
            texts(final(out)@) == texts(old(out)@) + self.entry(syntax, field),
    {
        match (flag_name(syntax, field), self.cell_text(syntax, field)) {
            (Some(f), Some(c)) => {
                let ghost before = texts(out@);
                out.push(String::from_str(f));
                out.push(c);
                assert(texts(out@) =~= before + self.entry(syntax, field));
            },
            _ => {
                assert(texts(out@) =~= texts(out@) + self.entry(syntax, field));
            },
        }
    }

    /// The model as command-line words in `syntax`.
    pub fn tokens(&self, syntax: Syntax) -> (out: Vec<String>)
        ensures
            texts(out@) == self.options(syntax),
    {
        let mut out: Vec<String> = Vec::new();
        assert(texts(out@) =~= Seq::<Seq<char>>::empty());
        self.push_entry(&mut out, syntax, Field::ColorSpace);
        self.push_entry(&mut out, syntax, Field::ColorTransfer);
        self.push_entry(&mut out, syntax, Field::ColorPrimaries);
        self.push_entry(&mut out, syntax, Field::MinLuminance);
        self.push_entry(&mut out, syntax, Field::MaxLuminance);
        self.push_entry(&mut out, syntax, Field::MaxContentLight);
        match syntax {
            Syntax::X265 | Syntax::Rav1e => {},
            _ => {
                self.push_entry(&mut out, syntax, Field::MaxFrameAverageLight);
            },
        }
        assert(texts(out@) =~= self.options(syntax));
        out
    }

    /// Each word of the command line is the option or the written value of
    /// a field that has an entry.
    pub proof fn option_origin(self, syntax: Syntax, word: Seq<char>)
        requires
            self.options(syntax).contains(word),
        ensures
            exists|field: Field|
                flag(syntax, field) is Some && #[trigger] self.cell(syntax, field) is Some && (word
                    == flag(syntax, field)->0 || word == self.cell(syntax, field)->0),
    {
        let e1 = self.entry(syntax, Field::ColorSpace);
        let e2 = self.entry(syntax, Field::ColorTransfer);
        let e3 = self.entry(syntax, Field::ColorPrimaries);
        let e4 = self.entry(syntax, Field::MinLuminance);
        let e5 = self.entry(syntax, Field::MaxLuminance);
        let e6 = self.entry(syntax, Field::MaxContentLight);
        let e7 = if share_option(syntax, Field::MaxContentLight, Field::MaxFrameAverageLight) {
            Seq::empty()
        } else {
            self.entry(syntax, Field::MaxFrameAverageLight)
        };
        contains_concat(e1 + e2 + e3 + e4 + e5 + e6, e7, word);
        contains_concat(e1 + e2 + e3 + e4 + e5, e6, word);
        contains_concat(e1 + e2 + e3 + e4, e5, word);
        contains_concat(e1 + e2 + e3, e4, word);
        contains_concat(e1 + e2, e3, word);
        contains_concat(e1, e2, word);
        let field = if e1.contains(word) {
            Field::ColorSpace
        } else if e2.contains(word) {
            Field::ColorTransfer
        } else if e3.contains(word) {
            Field::ColorPrimaries
        } else if e4.contains(word) {
            Field::MinLuminance
        } else if e5.contains(word) {
            Field::MaxLuminance
        } else if e6.contains(word) {
            Field::MaxContentLight
        } else {
            Field::MaxFrameAverageLight
        };
        let e = self.entry(syntax, field);
        assert(e.contains(word));
        let i = choose|i: int| 0 <= i < e.len() && e[i] == word;
        assert(e.len() == 2);
        assert(self.cell(syntax, field) is Some);
    }

    /// A field that the source does not assert leaves no trace in what is
    /// written for a tool: it has no value to write, it contributes no
    /// entry, and its option is not among the words.
    pub proof fn absent_field_is_not_written(self, syntax: Syntax, field: Field)
        requires
            syntax != Syntax::Plain,
            self.value(field) is None,
        ensures
            self.cell(syntax, field) is None,
            self.entry(syntax, field).len() == 0,
            flag(syntax, field) is Some ==> !self.options(syntax).contains(flag(syntax, field)->0),
    {
        let word = flag(syntax, field)->0;
        if flag(syntax, field) is Some && self.options(syntax).contains(word) {
            flag_marks(syntax, field);
            self.option_origin(syntax, word);
            let other = choose|other: Field|
                flag(syntax, other) is Some && #[trigger] self.cell(syntax, other) is Some && (word
                    == flag(syntax, other)->0 || word == self.cell(syntax, other)->0);
            if word == flag(syntax, other)->0 {
                flag_distinct(syntax, field, other);
            } else {
                self.cell_is_no_option(syntax, other);
            }
        }
    }

    /// No written value is empty or starts with a hyphen.
    pub proof fn cell_is_no_option(self, syntax: Syntax, field: Field)
        requires
            self.cell(syntax, field) is Some,
        ensures
            self.cell(syntax, field)->0.len() > 0,
            self.cell(syntax, field)->0[0] != '-',
    {
        if share_option(syntax, field, field) {
            light_pair_round_trip(
                syntax,
                self.max_content_light_level->0,
                self.max_frame_average_light_level->0,
            );
        } else {
            self.value(field)->0.word_is_no_option(syntax);
        }
    }

    /// What was written for a present field reads back as the field's
    /// value: in each of the three tools' syntaxes that has a cell for the
    /// field, and for the enumerated fields also in the plain names.
    pub proof fn written_field_reads_back(self, syntax: Syntax, field: Field)
        requires
            self.value(field) is Some,
            self.cell(syntax, field) is Some,
            syntax != Syntax::Plain || field.is_enumerated(),
        ensures
            read_back(syntax, field, self.cell(syntax, field)->0) == self.value(field),
    {
        if share_option(syntax, field, field) {
            light_pair_round_trip(
                syntax,
                self.max_content_light_level->0,
                self.max_frame_average_light_level->0,
            );
        } else {
            value_round_trip(syntax, field, self.value(field)->0);
        }
    }

    /// A model that asserts nothing writes nothing, in any syntax.
    pub proof fn nothing_writes_nothing(self, syntax: Syntax)
        requires
            self.is_nothing(),
        ensures
            self.options(syntax) =~= Seq::<Seq<char>>::empty(),
    {
        assert(self.value(Field::ColorSpace) is None);
        assert(self.value(Field::ColorTransfer) is None);
        assert(self.value(Field::ColorPrimaries) is None);
        assert(self.value(Field::MinLuminance) is None);
        assert(self.value(Field::MaxLuminance) is None);
        assert(self.value(Field::MaxContentLight) is None);
        assert(self.value(Field::MaxFrameAverageLight) is None);
    }
}

} // verus!
