//! The mapping table of the tool: one row for each metadata field, one
//! column for each syntax. A cell names the option (or, for a reader, the
//! label) under which the field travels and says how its value is written;
//! the matching reader takes a written value back.
use crate::numbers::{
    all_digits, append_decimal, append_fixed4, decimal, decimal_round_trip, fixed4,
    fixed4_round_trip, fixed_value, is_digit, is_fixed, number, parse_fixed, parse_number,
};
use crate::text::{find_char, first_index, first_index_is};
use crate::values::{
    on_video_track, video_track_prefix, ColorPrimaries, ColorSpace, ColorTransfer, Syntax,
};
use vstd::prelude::*;

verus! {

/// The fields of the metadata model, in the order in which they are written.
#[derive(Clone, Copy, Debug, PartialEq, Eq, Structural)]
pub enum Field {
    ColorSpace,
    ColorTransfer,
    ColorPrimaries,
    MinLuminance,
    MaxLuminance,
    MaxContentLight,
    MaxFrameAverageLight,
}

/// A luminance in candela per square metre, held exactly as a count of
/// ten-thousandths, the unit in which mastering display metadata is stored.
#[derive(Clone, Copy, Debug, PartialEq, Eq, Structural)]
pub struct Luminance {
    pub ten_thousandths: u64,
}

/// What a field holds when the source asserts it.
#[derive(Clone, Copy, Debug, PartialEq, Eq, Structural)]
pub enum Value {
    Space(ColorSpace),
    Transfer(ColorTransfer),
    Primaries(ColorPrimaries),
    Luminance(Luminance),
    Light(u64),
}

impl Field {
    /// Whether `v` is of the kind that this field holds.
    pub open spec fn holds(self, v: Value) -> bool {
        match self {
            Field::ColorSpace => v is Space,
            Field::ColorTransfer => v is Transfer,
            Field::ColorPrimaries => v is Primaries,
            Field::MinLuminance | Field::MaxLuminance => v is Luminance,
            Field::MaxContentLight | Field::MaxFrameAverageLight => v is Light,
        }
    }

    /// Whether the field holds one of the enumerated colour properties.
    pub open spec fn is_enumerated(self) -> bool {
        self == Field::ColorSpace || self == Field::ColorTransfer || self == Field::ColorPrimaries
    }

    /// Whether the field is one of the two content light levels.
    pub open spec fn is_light_level(self) -> bool {
        self == Field::MaxContentLight || self == Field::MaxFrameAverageLight
    }
}

/// The unit that follows a luminance or a light level shown to a reader.
pub open spec fn unit_suffix() -> Seq<char> {
    " cd/m2"@
}

/// The label that a reader sees before the value of `field`.
pub open spec fn label(field: Field) -> Seq<char> {
    match field {
        Field::ColorSpace => "Color space"@,
        Field::ColorTransfer => "Color transfer"@,
        Field::ColorPrimaries => "Color primaries"@,
        Field::MinLuminance => "Mastering display min luminance"@,
        Field::MaxLuminance => "Mastering display max luminance"@,
        Field::MaxContentLight => "Max content light level"@,
        Field::MaxFrameAverageLight => "Max frame-average light level"@,
    }
}

/// The name under which `field` travels in `syntax`: the label for a
/// reader, the option of the tool otherwise. x265 and rav1e take mastering
/// luminance only inside a mastering display string together with
/// chromaticity coordinates, which the model does not hold, so they have no
/// cell for the two luminance fields; and they take the two light levels
/// together, under one option.
pub open spec fn flag(syntax: Syntax, field: Field) -> Option<Seq<char>> {
    match syntax {
        Syntax::Plain => Some(label(field)),
        Syntax::X265 => match field {
            Field::ColorSpace => Some("--colormatrix"@),
            Field::ColorTransfer => Some("--transfer"@),
            Field::ColorPrimaries => Some("--colorprim"@),
            Field::MinLuminance | Field::MaxLuminance => None,
            Field::MaxContentLight | Field::MaxFrameAverageLight => Some("--max-cll"@),
        },
        Syntax::Rav1e => match field {
            Field::ColorSpace => Some("--matrix"@),
            Field::ColorTransfer => Some("--transfer"@),
            Field::ColorPrimaries => Some("--primaries"@),
            Field::MinLuminance | Field::MaxLuminance => None,
            Field::MaxContentLight | Field::MaxFrameAverageLight => Some("--content-light"@),
        },
        Syntax::Mkvmerge => Some(
            match field {
                Field::ColorSpace => "--colour-matrix-coefficients"@,
                Field::ColorTransfer => "--colour-transfer-characteristics"@,
                Field::ColorPrimaries => "--colour-primaries"@,
                Field::MinLuminance => "--min-luminance"@,
                Field::MaxLuminance => "--max-luminance"@,
                Field::MaxContentLight => "--max-content-light"@,
                Field::MaxFrameAverageLight => "--max-frame-light"@,
            },
        ),
    }
}

/// Whether two fields travel under one option in `syntax`, as the two light
/// levels do in x265 and rav1e.
pub open spec fn share_option(syntax: Syntax, a: Field, b: Field) -> bool {
    (syntax == Syntax::X265 || syntax == Syntax::Rav1e) && a.is_light_level() && b.is_light_level()
}

/// The length of each option, its first character, and for mkvmerge its
/// character at the place 3: enough to tell the options of one tool apart.
pub proof fn flag_marks(syntax: Syntax, field: Field)
    requires
        syntax != Syntax::Plain,
        flag(syntax, field) is Some,
    ensures
        flag(syntax, field)->0.len() > 3,
        flag(syntax, field)->0[0] == '-',
        syntax == Syntax::Mkvmerge ==> flag(syntax, field)->0.len() == match field {
            Field::ColorSpace => 28int,
            Field::ColorTransfer => 33,
            Field::ColorPrimaries => 18,
            Field::MinLuminance => 15,
            Field::MaxLuminance => 15,
            Field::MaxContentLight => 19,
            Field::MaxFrameAverageLight => 17,
        },
        syntax == Syntax::Mkvmerge ==> flag(syntax, field)->0[3] == match field {
            Field::ColorSpace => 'o',
            Field::ColorTransfer => 'o',
            Field::ColorPrimaries => 'o',
            Field::MinLuminance => 'i',
            Field::MaxLuminance => 'a',
            Field::MaxContentLight => 'a',
            Field::MaxFrameAverageLight => 'a',
        },
        syntax == Syntax::X265 ==> flag(syntax, field)->0.len() == match field {
            Field::ColorSpace => 13int,
            Field::ColorTransfer => 10,
            Field::ColorPrimaries => 11,
            _ => 9,
        },
        syntax == Syntax::Rav1e ==> flag(syntax, field)->0.len() == match field {
            Field::ColorSpace => 8int,
            Field::ColorTransfer => 10,
            Field::ColorPrimaries => 11,
            _ => 15,
        },
{
    reveal_strlit("--colormatrix");
    reveal_strlit("--transfer");
    reveal_strlit("--colorprim");
    reveal_strlit("--max-cll");
    reveal_strlit("--matrix");
    reveal_strlit("--primaries");
    reveal_strlit("--content-light");
    reveal_strlit("--colour-matrix-coefficients");
    reveal_strlit("--colour-transfer-characteristics");
    reveal_strlit("--colour-primaries");
    reveal_strlit("--min-luminance");
    reveal_strlit("--max-luminance");
    reveal_strlit("--max-content-light");
    reveal_strlit("--max-frame-light");
}

/// In one tool's syntax two fields have the same option only where they
/// travel together under it.
pub proof fn flag_distinct(syntax: Syntax, a: Field, b: Field)
    requires
        syntax != Syntax::Plain,
        flag(syntax, a) is Some,
        flag(syntax, a) == flag(syntax, b),
    ensures
        a == b || share_option(syntax, a, b),
{
    flag_marks(syntax, a);
    flag_marks(syntax, b);
}

/// The label that a reader sees before the value of `field`.
pub fn label_text(field: Field) -> (t: &'static str)
    ensures
        t@ == label(field),
{
    match field {
        Field::ColorSpace => "Color space",
        Field::ColorTransfer => "Color transfer",
        Field::ColorPrimaries => "Color primaries",
        Field::MinLuminance => "Mastering display min luminance",
        Field::MaxLuminance => "Mastering display max luminance",
        Field::MaxContentLight => "Max content light level",
        Field::MaxFrameAverageLight => "Max frame-average light level",
    }
}

/// The name under which `field` travels in `syntax`, or `None` where the
/// syntax has no cell for the field.
pub fn flag_name(syntax: Syntax, field: Field) -> (r: Option<&'static str>)
    ensures
        r is Some <==> flag(syntax, field) is Some,
        r is Some ==> r->0@ == flag(syntax, field)->0,
{
    match syntax {
        Syntax::Plain => Some(label_text(field)),
        Syntax::X265 => match field {
            Field::ColorSpace => Some("--colormatrix"),
            Field::ColorTransfer => Some("--transfer"),
            Field::ColorPrimaries => Some("--colorprim"),
            Field::MinLuminance | Field::MaxLuminance => None,
            Field::MaxContentLight | Field::MaxFrameAverageLight => Some("--max-cll"),
        },
        Syntax::Rav1e => match field {
            Field::ColorSpace => Some("--matrix"),
            Field::ColorTransfer => Some("--transfer"),
            Field::ColorPrimaries => Some("--primaries"),
            Field::MinLuminance | Field::MaxLuminance => None,
            Field::MaxContentLight | Field::MaxFrameAverageLight => Some("--content-light"),
        },
        Syntax::Mkvmerge => Some(
            match field {
                Field::ColorSpace => "--colour-matrix-coefficients",
                Field::ColorTransfer => "--colour-transfer-characteristics",
                Field::ColorPrimaries => "--colour-primaries",
                Field::MinLuminance => "--min-luminance",
                Field::MaxLuminance => "--max-luminance",
                Field::MaxContentLight => "--max-content-light",
                Field::MaxFrameAverageLight => "--max-frame-light",
            },
        ),
    }
}

/// The two light levels as x265 and rav1e take them: the maximum content
/// light level, a comma, the maximum frame-average light level.
pub open spec fn light_pair(content: nat, frame_average: nat) -> Seq<char> {
    decimal(content) + seq![','] + decimal(frame_average)
}

/// Writes the two light levels as x265 and rav1e take them.
pub fn light_pair_text(content: u64, frame_average: u64) -> (t: String)
    ensures
        t@ == light_pair(content as nat, frame_average as nat),
{
    let mut t = String::new();
    append_decimal(&mut t, content);
    t.append(",");
    append_decimal(&mut t, frame_average);
    proof {
        reveal_strlit(",");
        assert(t@ =~= light_pair(content as nat, frame_average as nat));
    }
    t
}

impl Value {
    /// How the value is written in `syntax`, where the syntax can write it
    /// by itself. A luminance or a light level shown to a reader carries its
    /// unit; for mkvmerge it is addressed to the video track. x265 and
    /// rav1e write no luminance, and light levels only in pairs.
    pub open spec fn word(self, syntax: Syntax) -> Option<Seq<char>> {
        match self {
            Value::Space(v) => v.word(syntax),
            Value::Transfer(v) => v.word(syntax),
            Value::Primaries(v) => v.word(syntax),
            Value::Luminance(l) => match syntax {
                Syntax::Plain => Some(fixed4(l.ten_thousandths as nat) + unit_suffix()),
                Syntax::Mkvmerge => Some(on_video_track(fixed4(l.ten_thousandths as nat))),
                _ => None,
            },
            Value::Light(n) => match syntax {
                Syntax::Plain => Some(decimal(n as nat) + unit_suffix()),
                Syntax::Mkvmerge => Some(on_video_track(decimal(n as nat))),
                _ => None,
            },
        }
    }

    /// Writes the value in `syntax`; `None` where the syntax cannot write
    /// it by itself.
    pub fn text(self, syntax: Syntax) -> (r: Option<String>)
        ensures
            r is Some <==> self.word(syntax) is Some,
            r is Some ==> r->0@ == self.word(syntax)->0,
    {
        match self {
            Value::Space(v) => v.text(syntax),
            Value::Transfer(v) => v.text(syntax),
            Value::Primaries(v) => v.text(syntax),
            Value::Luminance(l) => match syntax {
                Syntax::Plain => {
                    let mut t = String::new();
                    append_fixed4(&mut t, l.ten_thousandths);
                    t.append(" cd/m2");
                    assert(t@ =~= fixed4(l.ten_thousandths as nat) + unit_suffix());
                    Some(t)
                },
                Syntax::Mkvmerge => {
                    let mut t = video_track_prefix();
                    append_fixed4(&mut t, l.ten_thousandths);
                    Some(t)
                },
                _ => None,
            },
            Value::Light(n) => match syntax {
                Syntax::Plain => {
                    let mut t = String::new();
                    append_decimal(&mut t, n);
                    t.append(" cd/m2");
                    assert(t@ =~= decimal(n as nat) + unit_suffix());
                    Some(t)
                },
                Syntax::Mkvmerge => {
                    let mut t = video_track_prefix();
                    append_decimal(&mut t, n);
                    Some(t)
                },
                _ => None,
            },
        }
    }

    /// No written value is empty or starts with a hyphen, so none can be
    /// taken for an option.
    pub proof fn word_is_no_option(self, syntax: Syntax)
        requires
            self.word(syntax) is Some,
        ensures
            self.word(syntax)->0.len() > 0,
            self.word(syntax)->0[0] != '-',
    {
        match self {
            Value::Space(v) => v.word_is_no_option(syntax),
            Value::Transfer(v) => v.word_is_no_option(syntax),
            Value::Primaries(v) => v.word_is_no_option(syntax),
            Value::Luminance(l) => {
                fixed4_round_trip(l.ten_thousandths as nat);
            },
            Value::Light(n) => {
                decimal_round_trip(n as nat);
            },
        }
    }
}

/// Whether `s` is a run of digits whose value fits in 64 bits.
pub open spec fn reads_number(s: Seq<char>) -> bool {
    s.len() > 0 && all_digits(s) && number(s) <= u64::MAX
}

/// Whether `s` is a decimal fraction whose count of ten-thousandths fits in
/// 64 bits.
pub open spec fn reads_fixed4(s: Seq<char>) -> bool {
    is_fixed(s) && fixed_value(s, 4) <= u64::MAX
}

/// Whether `s` is addressed to the video track.
pub open spec fn is_on_video_track(s: Seq<char>) -> bool {
    s.len() >= 2 && s[0] == '0' && s[1] == ':'
}

/// Whether `s` is a pair of light levels such as x265 and rav1e take.
pub open spec fn reads_light_pair(s: Seq<char>) -> bool {
    let comma = first_index(s, ',');
    comma < s.len() && reads_number(s.take(comma)) && reads_number(s.skip(comma + 1))
}

/// The value that the text `s` gives to `field` in `syntax`, where it gives
/// one: the inverse of writing. An enumerated value is read from exactly the
/// text that stands for it. For mkvmerge a number is read behind the video
/// track's prefix; for x265 and rav1e each light level is read from its side
/// of the pair. What a reader is shown for a number, with its unit, is not
/// read back.
pub open spec fn read_back(syntax: Syntax, field: Field, s: Seq<char>) -> Option<Value> {
    match field {
        Field::ColorSpace => match ColorSpace::of_word(syntax, s) {
            Some(v) => Some(Value::Space(v)),
            None => None,
        },
        Field::ColorTransfer => match ColorTransfer::of_word(syntax, s) {
            Some(v) => Some(Value::Transfer(v)),
            None => None,
        },
        Field::ColorPrimaries => match ColorPrimaries::of_word(syntax, s) {
            Some(v) => Some(Value::Primaries(v)),
            None => None,
        },
        Field::MinLuminance | Field::MaxLuminance => if syntax == Syntax::Mkvmerge
            && is_on_video_track(s) && reads_fixed4(s.skip(2)) {
            Some(Value::Luminance(Luminance { ten_thousandths: fixed_value(s.skip(2), 4) as u64 }))
        } else {
            None
        },
        Field::MaxContentLight | Field::MaxFrameAverageLight => match syntax {
            Syntax::Plain => None,
            Syntax::Mkvmerge => if is_on_video_track(s) && reads_number(s.skip(2)) {
                Some(Value::Light(number(s.skip(2)) as u64))
            } else {
                None
            },
            _ => if !reads_light_pair(s) {
                None
            } else if field == Field::MaxContentLight {
                Some(Value::Light(number(s.take(first_index(s, ','))) as u64))
            } else {
                Some(Value::Light(number(s.skip(first_index(s, ',') + 1)) as u64))
            },
        },
    }
}

/// Reads the value that the text `s` gives to `field` in `syntax`.
pub fn read_value(syntax: Syntax, field: Field, s: &[char]) -> (r: Option<Value>)
    ensures
        r == read_back(syntax, field, s@),
{
    match field {
        Field::ColorSpace => match ColorSpace::from_text(syntax, s) {
            Some(v) => Some(Value::Space(v)),
            None => None,
        },
        Field::ColorTransfer => match ColorTransfer::from_text(syntax, s) {
            Some(v) => Some(Value::Transfer(v)),
            None => None,
        },
        Field::ColorPrimaries => match ColorPrimaries::from_text(syntax, s) {
            Some(v) => Some(Value::Primaries(v)),
            None => None,
        },
        Field::MinLuminance | Field::MaxLuminance => {
            if syntax != Syntax::Mkvmerge || s.len() < 2 || s[0] != '0' || s[1] != ':' {
                return None;
            }
            let rest = vstd::slice::slice_subrange(s, 2, s.len());
            assert(rest@ =~= s@.skip(2));
            match parse_fixed(rest, 4) {
                Some(v) => Some(Value::Luminance(Luminance { ten_thousandths: v })),
                None => None,
            }
        },
        Field::MaxContentLight | Field::MaxFrameAverageLight => match syntax {
            Syntax::Plain => None,
            Syntax::Mkvmerge => {
                if s.len() < 2 || s[0] != '0' || s[1] != ':' {
                    return None;
                }
                let rest = vstd::slice::slice_subrange(s, 2, s.len());
                assert(rest@ =~= s@.skip(2));
                match parse_number(rest) {
                    Some(n) => Some(Value::Light(n)),
                    None => None,
                }
            },
            _ => {
                let comma = find_char(s, ',');
                if comma >= s.len() {
                    return None;
                }
                let left = vstd::slice::slice_subrange(s, 0, comma);
                let right = vstd::slice::slice_subrange(s, comma + 1, s.len());
                assert(left@ =~= s@.take(comma as int));
                assert(right@ =~= s@.skip(comma + 1));
                match (parse_number(left), parse_number(right)) {
                    (Some(a), Some(b)) => match field {
                        Field::MaxContentLight => Some(Value::Light(a)),
                        _ => Some(Value::Light(b)),
                    },
                    _ => None,
                }
            },
        },
    }
}

/// A value that was written for a tool reads back as itself: in each of the
/// three tools' syntaxes that can write the value, and for the enumerated
/// values also in the plain names.
pub proof fn value_round_trip(syntax: Syntax, field: Field, v: Value)
    requires
        field.holds(v),
        v.word(syntax) is Some,
        syntax != Syntax::Plain || field.is_enumerated(),
    ensures
        read_back(syntax, field, v.word(syntax)->0) == Some(v),
{
    let s = v.word(syntax)->0;
    match v {
        Value::Space(x) => x.word_round_trip(syntax),
        Value::Transfer(x) => x.word_round_trip(syntax),
        Value::Primaries(x) => x.word_round_trip(syntax),
        Value::Luminance(l) => {
            fixed4_round_trip(l.ten_thousandths as nat);
            assert(s.skip(2) =~= fixed4(l.ten_thousandths as nat));
        },
        Value::Light(n) => {
            decimal_round_trip(n as nat);
            assert(s.skip(2) =~= decimal(n as nat));
        },
    }
}

/// A pair of light levels written for x265 or rav1e reads back as the two
/// levels, each from its own field.
pub proof fn light_pair_round_trip(syntax: Syntax, content: u64, frame_average: u64)
    requires
        syntax == Syntax::X265 || syntax == Syntax::Rav1e,
    ensures
        read_back(syntax, Field::MaxContentLight, light_pair(content as nat, frame_average as nat))
            == Some(Value::Light(content)),
        read_back(
            syntax,
            Field::MaxFrameAverageLight,
            light_pair(content as nat, frame_average as nat),
        ) == Some(Value::Light(frame_average)),
        light_pair(content as nat, frame_average as nat).len() > 0,
        is_digit(light_pair(content as nat, frame_average as nat)[0]),
{
    let a = decimal(content as nat);
    let b = decimal(frame_average as nat);
    let s = light_pair(content as nat, frame_average as nat);
    decimal_round_trip(content as nat);
    decimal_round_trip(frame_average as nat);
    assert(is_digit(a[0]));
    assert forall|j: int| 0 <= j < a.len() implies s[j] != ',' by {
        assert(is_digit(a[j]));
    }
    assert(s[a.len() as int] == ',');
    first_index_is(s, ',', a.len() as int);
    assert(s.take(a.len() as int) =~= a);
    assert(s.skip(a.len() as int + 1) =~= b);
}

} // verus!
