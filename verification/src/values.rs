//! The enumerated colour properties: their values, the code point of each,
//! what each is called in each of the syntaxes that the tool writes, and how
//! such a text is read back.
use crate::numbers::{append_decimal, decimal, decimal_round_trip};
use crate::text::same_text;
use vstd::prelude::*;

verus! {

/// A syntax that a metadata value can be written in: the plain names that
/// the prober reports and a reader sees, and the command-line conventions of
/// x265, rav1e and mkvmerge.
#[derive(Clone, Copy, Debug, PartialEq, Eq, Structural)]
pub enum Syntax {
    Plain,
    X265,
    Rav1e,
    Mkvmerge,
}

/// A piece of text addressed to the video track, as mkvmerge takes it: the
/// track number 0, a colon, the text.
pub open spec fn on_video_track(text: Seq<char>) -> Seq<char> {
    seq!['0', ':'] + text
}

/// The start of a value that mkvmerge applies to the video track.
pub fn video_track_prefix() -> (t: String)
    ensures
        t@ == seq!['0', ':'],
{
    proof {
        reveal_strlit("0:");
    }
    let t = String::from_str("0:");
    assert(t@ =~= seq!['0', ':']);
    t
}

/// The matrix coefficients that turn RGB into luma and chroma, by their
/// code points in ITU-T H.273. `Unspecified` is a value that a source
/// asserts; a source that says nothing has no value at all.
#[derive(Clone, Copy, Debug, PartialEq, Eq, Structural)]
pub enum ColorSpace {
    Rgb,
    Bt709,
    Unspecified,
    Fcc,
    Bt470bg,
    Smpte170m,
    Smpte240m,
    Ycgco,
    Bt2020Ncl,
    Bt2020Cl,
    Smpte2085,
    ChromaDerivedNcl,
    ChromaDerivedCl,
    Ictcp,
}

impl ColorSpace {
    /// The H.273 code point of the value.
    pub open spec fn code_point(self) -> u8 {
        match self {
            ColorSpace::Rgb => 0,
            ColorSpace::Bt709 => 1,
            ColorSpace::Unspecified => 2,
            ColorSpace::Fcc => 4,
            ColorSpace::Bt470bg => 5,
            ColorSpace::Smpte170m => 6,
            ColorSpace::Smpte240m => 7,
            ColorSpace::Ycgco => 8,
            ColorSpace::Bt2020Ncl => 9,
            ColorSpace::Bt2020Cl => 10,
            ColorSpace::Smpte2085 => 11,
            ColorSpace::ChromaDerivedNcl => 12,
            ColorSpace::ChromaDerivedCl => 13,
            ColorSpace::Ictcp => 14,
        }
    }

    /// The value with the H.273 code point `c`, where there is one.
    pub open spec fn of_code(c: u8) -> Option<ColorSpace> {
        if c == 0 {
            Some(ColorSpace::Rgb)
        } else if c == 1 {
            Some(ColorSpace::Bt709)
        } else if c == 2 {
            Some(ColorSpace::Unspecified)
        } else if c == 4 {
            Some(ColorSpace::Fcc)
        } else if c == 5 {
            Some(ColorSpace::Bt470bg)
        } else if c == 6 {
            Some(ColorSpace::Smpte170m)
        } else if c == 7 {
            Some(ColorSpace::Smpte240m)
        } else if c == 8 {
            Some(ColorSpace::Ycgco)
        } else if c == 9 {
            Some(ColorSpace::Bt2020Ncl)
        } else if c == 10 {
            Some(ColorSpace::Bt2020Cl)
        } else if c == 11 {
            Some(ColorSpace::Smpte2085)
        } else if c == 12 {
            Some(ColorSpace::ChromaDerivedNcl)
        } else if c == 13 {
            Some(ColorSpace::ChromaDerivedCl)
        } else if c == 14 {
            Some(ColorSpace::Ictcp)
        } else {
            None
        }
    }

    /// The name that the prober, and a reader, knows the value by.
    pub open spec fn common_word(self) -> Seq<char> {
        match self {
            ColorSpace::Rgb => "gbr"@,
            ColorSpace::Bt709 => "bt709"@,
            ColorSpace::Unspecified => "unknown"@,
            ColorSpace::Fcc => "fcc"@,
            ColorSpace::Bt470bg => "bt470bg"@,
            ColorSpace::Smpte170m => "smpte170m"@,
            ColorSpace::Smpte240m => "smpte240m"@,
            ColorSpace::Ycgco => "ycgco"@,
            ColorSpace::Bt2020Ncl => "bt2020nc"@,
            ColorSpace::Bt2020Cl => "bt2020c"@,
            ColorSpace::Smpte2085 => "smpte2085"@,
            ColorSpace::ChromaDerivedNcl => "chroma-derived-nc"@,
            ColorSpace::ChromaDerivedCl => "chroma-derived-c"@,
            ColorSpace::Ictcp => "ictcp"@,
        }
    }

    /// The name that rav1e knows the value by.
    pub open spec fn rav1e_word(self) -> Seq<char> {
        match self {
            ColorSpace::Rgb => "Identity"@,
            ColorSpace::Bt709 => "BT709"@,
            ColorSpace::Unspecified => "Unspecified"@,
            ColorSpace::Fcc => "FCC"@,
            ColorSpace::Bt470bg => "BT470BG"@,
            ColorSpace::Smpte170m => "BT601"@,
            ColorSpace::Smpte240m => "SMPTE240"@,
            ColorSpace::Ycgco => "YCgCo"@,
            ColorSpace::Bt2020Ncl => "BT2020NCL"@,
            ColorSpace::Bt2020Cl => "BT2020CL"@,
            ColorSpace::Smpte2085 => "SMPTE2085"@,
            ColorSpace::ChromaDerivedNcl => "ChromatNCL"@,
            ColorSpace::ChromaDerivedCl => "ChromatCL"@,
            ColorSpace::Ictcp => "ICtCp"@,
        }
    }

    /// The text that stands for the value in `syntax`, where the syntax
    /// has one: x265 shares the common names, mkvmerge
    /// takes the code point on the video track.
    pub open spec fn word(self, syntax: Syntax) -> Option<Seq<char>> {
        match syntax {
            Syntax::Plain => Some(self.common_word()),
            Syntax::X265 => Some(self.common_word()),
            Syntax::Rav1e => Some(self.rav1e_word()),
            Syntax::Mkvmerge => Some(on_video_track(decimal(self.code_point() as nat))),
        }
    }

    /// The value that `s` stands for in `syntax`, where it stands for one.
    pub open spec fn of_word(syntax: Syntax, s: Seq<char>) -> Option<ColorSpace> {
        if exists|v: ColorSpace| v.word(syntax) == Some(s) {
            Some(choose|v: ColorSpace| v.word(syntax) == Some(s))
        } else {
            None
        }
    }

    /// A value's code point leads back to the value, and no other code
    /// point does.
    pub proof fn code_round_trip(self)
        ensures
            ColorSpace::of_code(self.code_point()) == Some(self),
            forall|c: u8| ColorSpace::of_code(c) == Some(self) ==> c == self.code_point(),
    {
    }

    /// The length of each common name and its characters at the places
    /// 0 and 6: together they tell the names apart.
    pub proof fn common_word_marks(self)
        ensures
            match self {
                ColorSpace::Rgb => self.common_word().len() == 3 && self.common_word()[0] == 'g',
                ColorSpace::Bt709 => self.common_word().len() == 5 && self.common_word()[0] == 'b',
                ColorSpace::Unspecified => self.common_word().len() == 7 && self.common_word()[0] == 'u' && self.common_word()[6] == 'n',
                ColorSpace::Fcc => self.common_word().len() == 3 && self.common_word()[0] == 'f',
                ColorSpace::Bt470bg => self.common_word().len() == 7 && self.common_word()[0] == 'b' && self.common_word()[6] == 'g',
                ColorSpace::Smpte170m => self.common_word().len() == 9 && self.common_word()[0] == 's' && self.common_word()[6] == '7',
                ColorSpace::Smpte240m => self.common_word().len() == 9 && self.common_word()[0] == 's' && self.common_word()[6] == '4',
                ColorSpace::Ycgco => self.common_word().len() == 5 && self.common_word()[0] == 'y',
                ColorSpace::Bt2020Ncl => self.common_word().len() == 8 && self.common_word()[0] == 'b' && self.common_word()[6] == 'n',
                ColorSpace::Bt2020Cl => self.common_word().len() == 7 && self.common_word()[0] == 'b' && self.common_word()[6] == 'c',
                ColorSpace::Smpte2085 => self.common_word().len() == 9 && self.common_word()[0] == 's' && self.common_word()[6] == '0',
                ColorSpace::ChromaDerivedNcl => self.common_word().len() == 17 && self.common_word()[0] == 'c' && self.common_word()[6] == '-',
                ColorSpace::ChromaDerivedCl => self.common_word().len() == 16 && self.common_word()[0] == 'c' && self.common_word()[6] == '-',
                ColorSpace::Ictcp => self.common_word().len() == 5 && self.common_word()[0] == 'i',
            },
    {
        reveal_strlit("gbr");
        reveal_strlit("bt709");
        reveal_strlit("unknown");
        reveal_strlit("fcc");
        reveal_strlit("bt470bg");
        reveal_strlit("smpte170m");
        reveal_strlit("smpte240m");
        reveal_strlit("ycgco");
        reveal_strlit("bt2020nc");
        reveal_strlit("bt2020c");
        reveal_strlit("smpte2085");
        reveal_strlit("chroma-derived-nc");
        reveal_strlit("chroma-derived-c");
        reveal_strlit("ictcp");
    }

    /// Two values with the same common name are one value.
    pub proof fn common_word_distinct(self, other: ColorSpace)
        requires
            self.common_word() == other.common_word(),
        ensures
            self == other,
    {
        self.common_word_marks();
        other.common_word_marks();
    }

    /// The length of each rav1e name and its characters at the places
    /// 2: together they tell the names apart.
    pub proof fn rav1e_word_marks(self)
        ensures
            match self {
                ColorSpace::Rgb => self.rav1e_word().len() == 8 && self.rav1e_word()[2] == 'e',
                ColorSpace::Bt709 => self.rav1e_word().len() == 5 && self.rav1e_word()[2] == '7',
                ColorSpace::Unspecified => self.rav1e_word().len() == 11 && self.rav1e_word()[2] == 's',
                ColorSpace::Fcc => self.rav1e_word().len() == 3 && self.rav1e_word()[2] == 'C',
                ColorSpace::Bt470bg => self.rav1e_word().len() == 7 && self.rav1e_word()[2] == '4',
                ColorSpace::Smpte170m => self.rav1e_word().len() == 5 && self.rav1e_word()[2] == '6',
                ColorSpace::Smpte240m => self.rav1e_word().len() == 8 && self.rav1e_word()[2] == 'P',
                ColorSpace::Ycgco => self.rav1e_word().len() == 5 && self.rav1e_word()[2] == 'g',
                ColorSpace::Bt2020Ncl => self.rav1e_word().len() == 9 && self.rav1e_word()[2] == '2',
                ColorSpace::Bt2020Cl => self.rav1e_word().len() == 8 && self.rav1e_word()[2] == '2',
                ColorSpace::Smpte2085 => self.rav1e_word().len() == 9 && self.rav1e_word()[2] == 'P',
                ColorSpace::ChromaDerivedNcl => self.rav1e_word().len() == 10 && self.rav1e_word()[2] == 'r',
                ColorSpace::ChromaDerivedCl => self.rav1e_word().len() == 9 && self.rav1e_word()[2] == 'r',
                ColorSpace::Ictcp => self.rav1e_word().len() == 5 && self.rav1e_word()[2] == 't',
            },
    {
        reveal_strlit("Identity");
        reveal_strlit("BT709");
        reveal_strlit("Unspecified");
        reveal_strlit("FCC");
        reveal_strlit("BT470BG");
        reveal_strlit("BT601");
        reveal_strlit("SMPTE240");
        reveal_strlit("YCgCo");
        reveal_strlit("BT2020NCL");
        reveal_strlit("BT2020CL");
        reveal_strlit("SMPTE2085");
        reveal_strlit("ChromatNCL");
        reveal_strlit("ChromatCL");
        reveal_strlit("ICtCp");
    }

    /// Two values with the same rav1e name are one value.
    pub proof fn rav1e_word_distinct(self, other: ColorSpace)
        requires
            self.rav1e_word() == other.rav1e_word(),
        ensures
            self == other,
    {
        self.rav1e_word_marks();
        other.rav1e_word_marks();
    }

    /// No text of a value is empty or starts with a hyphen, so none can be
    /// taken for an option.
    pub proof fn word_is_no_option(self, syntax: Syntax)
        requires
            self.word(syntax) is Some,
        ensures
            self.word(syntax)->0.len() > 0,
            self.word(syntax)->0[0] != '-',
    {
        reveal_strlit("BT2020CL");
        reveal_strlit("BT2020NCL");
        reveal_strlit("BT470BG");
        reveal_strlit("BT601");
        reveal_strlit("BT709");
        reveal_strlit("ChromatCL");
        reveal_strlit("ChromatNCL");
        reveal_strlit("FCC");
        reveal_strlit("ICtCp");
        reveal_strlit("Identity");
        reveal_strlit("SMPTE2085");
        reveal_strlit("SMPTE240");
        reveal_strlit("Unspecified");
        reveal_strlit("YCgCo");
        reveal_strlit("bt2020c");
        reveal_strlit("bt2020nc");
        reveal_strlit("bt470bg");
        reveal_strlit("bt709");
        reveal_strlit("chroma-derived-c");
        reveal_strlit("chroma-derived-nc");
        reveal_strlit("fcc");
        reveal_strlit("gbr");
        reveal_strlit("ictcp");
        reveal_strlit("smpte170m");
        reveal_strlit("smpte2085");
        reveal_strlit("smpte240m");
        reveal_strlit("unknown");
        reveal_strlit("ycgco");
        assert(self.common_word().len() > 0 && self.common_word()[0] != '-');
        assert(self.rav1e_word().len() > 0 && self.rav1e_word()[0] != '-');
    }

    /// In one syntax two values never share a text.
    pub proof fn word_distinct(self, other: ColorSpace, syntax: Syntax)
        requires
            self.word(syntax) is Some,
            self.word(syntax) == other.word(syntax),
        ensures
            self == other,
    {
        match syntax {
            Syntax::Plain | Syntax::X265 => {
                self.common_word_distinct(other);
            },
            Syntax::Rav1e => {
                self.rav1e_word_distinct(other);
            },
            Syntax::Mkvmerge => {
                let a = decimal(self.code_point() as nat);
                let b = decimal(other.code_point() as nat);
                assert(on_video_track(a).skip(2) =~= a);
                assert(on_video_track(b).skip(2) =~= b);
                decimal_round_trip(self.code_point() as nat);
                decimal_round_trip(other.code_point() as nat);
                self.code_round_trip();
                other.code_round_trip();
            },
        }
    }

    /// Reading back the text that was written for a value gives the value.
    pub proof fn word_round_trip(self, syntax: Syntax)
        requires
            self.word(syntax) is Some,
        ensures
            ColorSpace::of_word(syntax, self.word(syntax)->0) == Some(self),
    {
        let s = self.word(syntax)->0;
        let found = choose|v: ColorSpace| v.word(syntax) == Some(s);
        found.word_distinct(self, syntax);
    }

    /// The H.273 code point of the value.
    pub fn code(self) -> (c: u8)
        ensures
            c == self.code_point(),
    {
        match self {
            ColorSpace::Rgb => 0,
            ColorSpace::Bt709 => 1,
            ColorSpace::Unspecified => 2,
            ColorSpace::Fcc => 4,
            ColorSpace::Bt470bg => 5,
            ColorSpace::Smpte170m => 6,
            ColorSpace::Smpte240m => 7,
            ColorSpace::Ycgco => 8,
            ColorSpace::Bt2020Ncl => 9,
            ColorSpace::Bt2020Cl => 10,
            ColorSpace::Smpte2085 => 11,
            ColorSpace::ChromaDerivedNcl => 12,
            ColorSpace::ChromaDerivedCl => 13,
            ColorSpace::Ictcp => 14,
        }
    }

    /// The value with the H.273 code point `c`; none for a code point
    /// that the standard reserves.
    pub fn from_code(c: u8) -> (r: Option<ColorSpace>)
        ensures
            r == ColorSpace::of_code(c),
    {
        match c {
            0 => Some(ColorSpace::Rgb),
            1 => Some(ColorSpace::Bt709),
            2 => Some(ColorSpace::Unspecified),
            4 => Some(ColorSpace::Fcc),
            5 => Some(ColorSpace::Bt470bg),
            6 => Some(ColorSpace::Smpte170m),
            7 => Some(ColorSpace::Smpte240m),
            8 => Some(ColorSpace::Ycgco),
            9 => Some(ColorSpace::Bt2020Ncl),
            10 => Some(ColorSpace::Bt2020Cl),
            11 => Some(ColorSpace::Smpte2085),
            12 => Some(ColorSpace::ChromaDerivedNcl),
            13 => Some(ColorSpace::ChromaDerivedCl),
            14 => Some(ColorSpace::Ictcp),
            _ => None,
        }
    }

    /// The common name of the value.
    pub fn common_name(self) -> (t: &'static str)
        ensures
            t@ == self.common_word(),
    {
        match self {
            ColorSpace::Rgb => "gbr",
            ColorSpace::Bt709 => "bt709",
            ColorSpace::Unspecified => "unknown",
            ColorSpace::Fcc => "fcc",
            ColorSpace::Bt470bg => "bt470bg",
            ColorSpace::Smpte170m => "smpte170m",
            ColorSpace::Smpte240m => "smpte240m",
            ColorSpace::Ycgco => "ycgco",
            ColorSpace::Bt2020Ncl => "bt2020nc",
            ColorSpace::Bt2020Cl => "bt2020c",
            ColorSpace::Smpte2085 => "smpte2085",
            ColorSpace::ChromaDerivedNcl => "chroma-derived-nc",
            ColorSpace::ChromaDerivedCl => "chroma-derived-c",
            ColorSpace::Ictcp => "ictcp",
        }
    }

    /// The rav1e name of the value.
    pub fn rav1e_name(self) -> (t: &'static str)
        ensures
            t@ == self.rav1e_word(),
    {
        match self {
            ColorSpace::Rgb => "Identity",
            ColorSpace::Bt709 => "BT709",
            ColorSpace::Unspecified => "Unspecified",
            ColorSpace::Fcc => "FCC",
            ColorSpace::Bt470bg => "BT470BG",
            ColorSpace::Smpte170m => "BT601",
            ColorSpace::Smpte240m => "SMPTE240",
            ColorSpace::Ycgco => "YCgCo",
            ColorSpace::Bt2020Ncl => "BT2020NCL",
            ColorSpace::Bt2020Cl => "BT2020CL",
            ColorSpace::Smpte2085 => "SMPTE2085",
            ColorSpace::ChromaDerivedNcl => "ChromatNCL",
            ColorSpace::ChromaDerivedCl => "ChromatCL",
            ColorSpace::Ictcp => "ICtCp",
        }
    }

    /// The text that stands for the value in `syntax`, or `None` where the
    /// syntax cannot name it.
    pub fn text(self, syntax: Syntax) -> (r: Option<String>)
        ensures
            r is Some <==> self.word(syntax) is Some,
            r is Some ==> r->0@ == self.word(syntax)->0,
    {
        match syntax {
            Syntax::Plain => Some(String::from_str(self.common_name())),
            Syntax::X265 => Some(String::from_str(self.common_name())),
            Syntax::Rav1e => Some(String::from_str(self.rav1e_name())),
            Syntax::Mkvmerge => {
                let mut t = video_track_prefix();
                append_decimal(&mut t, self.code() as u64);
                Some(t)
            },
        }
    }

    /// The value that `s` stands for in `syntax`, or `None` where it stands
    /// for none.
    pub fn from_text(syntax: Syntax, s: &[char]) -> (r: Option<ColorSpace>)
        ensures
            r == ColorSpace::of_word(syntax, s@),
            r is Some <==> exists|v: ColorSpace| v.word(syntax) == Some(s@),
            r is Some ==> r->0.word(syntax) == Some(s@),
    {
        let mut c: u8 = 0;
        while c < 15
            invariant
                0 <= c <= 15,
                forall|v: ColorSpace| v.code_point() < c ==> v.word(syntax) != Some(s@),
            decreases 15 - c,
        {
            if let Some(v) = ColorSpace::from_code(c) {
                if let Some(t) = v.text(syntax) {
                    if same_text(s, t.as_str()) {
                        proof {
                            let found = choose|w: ColorSpace| w.word(syntax) == Some(s@);
                            found.word_distinct(v, syntax);
                        }
                        return Some(v);
                    }
                }
            }
            proof {
                assert forall|v: ColorSpace| v.code_point() < c + 1 implies v.word(syntax) != Some(
                    s@,
                ) by {
                    v.code_round_trip();
                }
            }
            c = c + 1;
        }
        None
    }
}

/// The transfer characteristics (the opto-electronic curve), by their code
/// points in ITU-T H.273. `Pq` is SMPTE ST 2084, `Hlg` is ARIB STD-B67.
#[derive(Clone, Copy, Debug, PartialEq, Eq, Structural)]
pub enum ColorTransfer {
    Bt709,
    Unspecified,
    Bt470m,
    Bt470bg,
    Smpte170m,
    Smpte240m,
    Linear,
    Log100,
    Log316,
    Iec61966_2_4,
    Bt1361e,
    Srgb,
    Bt2020_10,
    Bt2020_12,
    Pq,
    Smpte428,
    Hlg,
}

impl ColorTransfer {
    /// The H.273 code point of the value.
    pub open spec fn code_point(self) -> u8 {
        match self {
            ColorTransfer::Bt709 => 1,
            ColorTransfer::Unspecified => 2,
            ColorTransfer::Bt470m => 4,
            ColorTransfer::Bt470bg => 5,
            ColorTransfer::Smpte170m => 6,
            ColorTransfer::Smpte240m => 7,
            ColorTransfer::Linear => 8,
            ColorTransfer::Log100 => 9,
            ColorTransfer::Log316 => 10,
            ColorTransfer::Iec61966_2_4 => 11,
            ColorTransfer::Bt1361e => 12,
            ColorTransfer::Srgb => 13,
            ColorTransfer::Bt2020_10 => 14,
            ColorTransfer::Bt2020_12 => 15,
            ColorTransfer::Pq => 16,
            ColorTransfer::Smpte428 => 17,
            ColorTransfer::Hlg => 18,
        }
    }

    /// The value with the H.273 code point `c`, where there is one.
    pub open spec fn of_code(c: u8) -> Option<ColorTransfer> {
        if c == 1 {
            Some(ColorTransfer::Bt709)
        } else if c == 2 {
            Some(ColorTransfer::Unspecified)
        } else if c == 4 {
            Some(ColorTransfer::Bt470m)
        } else if c == 5 {
            Some(ColorTransfer::Bt470bg)
        } else if c == 6 {
            Some(ColorTransfer::Smpte170m)
        } else if c == 7 {
            Some(ColorTransfer::Smpte240m)
        } else if c == 8 {
            Some(ColorTransfer::Linear)
        } else if c == 9 {
            Some(ColorTransfer::Log100)
        } else if c == 10 {
            Some(ColorTransfer::Log316)
        } else if c == 11 {
            Some(ColorTransfer::Iec61966_2_4)
        } else if c == 12 {
            Some(ColorTransfer::Bt1361e)
        } else if c == 13 {
            Some(ColorTransfer::Srgb)
        } else if c == 14 {
            Some(ColorTransfer::Bt2020_10)
        } else if c == 15 {
            Some(ColorTransfer::Bt2020_12)
        } else if c == 16 {
            Some(ColorTransfer::Pq)
        } else if c == 17 {
            Some(ColorTransfer::Smpte428)
        } else if c == 18 {
            Some(ColorTransfer::Hlg)
        } else {
            None
        }
    }

    /// The name that the prober, and a reader, knows the value by.
    pub open spec fn common_word(self) -> Seq<char> {
        match self {
            ColorTransfer::Bt709 => "bt709"@,
            ColorTransfer::Unspecified => "unknown"@,
            ColorTransfer::Bt470m => "bt470m"@,
            ColorTransfer::Bt470bg => "bt470bg"@,
            ColorTransfer::Smpte170m => "smpte170m"@,
            ColorTransfer::Smpte240m => "smpte240m"@,
            ColorTransfer::Linear => "linear"@,
            ColorTransfer::Log100 => "log100"@,
            ColorTransfer::Log316 => "log316"@,
            ColorTransfer::Iec61966_2_4 => "iec61966-2-4"@,
            ColorTransfer::Bt1361e => "bt1361e"@,
            ColorTransfer::Srgb => "iec61966-2-1"@,
            ColorTransfer::Bt2020_10 => "bt2020-10"@,
            ColorTransfer::Bt2020_12 => "bt2020-12"@,
            ColorTransfer::Pq => "smpte2084"@,
            ColorTransfer::Smpte428 => "smpte428"@,
            ColorTransfer::Hlg => "arib-std-b67"@,
        }
    }

    /// The name that rav1e knows the value by.
    pub open spec fn rav1e_word(self) -> Seq<char> {
        match self {
            ColorTransfer::Bt709 => "BT709"@,
            ColorTransfer::Unspecified => "Unspecified"@,
            ColorTransfer::Bt470m => "BT470M"@,
            ColorTransfer::Bt470bg => "BT470BG"@,
            ColorTransfer::Smpte170m => "BT601"@,
            ColorTransfer::Smpte240m => "SMPTE240"@,
            ColorTransfer::Linear => "Linear"@,
            ColorTransfer::Log100 => "Log100"@,
            ColorTransfer::Log316 => "Log100Sqrt10"@,
            ColorTransfer::Iec61966_2_4 => "IEC61966"@,
            ColorTransfer::Bt1361e => "BT1361"@,
            ColorTransfer::Srgb => "SRGB"@,
            ColorTransfer::Bt2020_10 => "BT2020_10Bit"@,
            ColorTransfer::Bt2020_12 => "BT2020_12Bit"@,
            ColorTransfer::Pq => "SMPTE2084"@,
            ColorTransfer::Smpte428 => "SMPTE428"@,
            ColorTransfer::Hlg => "HLG"@,
        }
    }

    /// The text that stands for the value in `syntax`, where the syntax
    /// has one: x265 shares the common names, mkvmerge
    /// takes the code point on the video track.
    pub open spec fn word(self, syntax: Syntax) -> Option<Seq<char>> {
        match syntax {
            Syntax::Plain => Some(self.common_word()),
            Syntax::X265 => Some(self.common_word()),
            Syntax::Rav1e => Some(self.rav1e_word()),
            Syntax::Mkvmerge => Some(on_video_track(decimal(self.code_point() as nat))),
        }
    }

    /// The value that `s` stands for in `syntax`, where it stands for one.
    pub open spec fn of_word(syntax: Syntax, s: Seq<char>) -> Option<ColorTransfer> {
        if exists|v: ColorTransfer| v.word(syntax) == Some(s) {
            Some(choose|v: ColorTransfer| v.word(syntax) == Some(s))
        } else {
            None
        }
    }

    /// A value's code point leads back to the value, and no other code
    /// point does.
    pub proof fn code_round_trip(self)
        ensures
            ColorTransfer::of_code(self.code_point()) == Some(self),
            forall|c: u8| ColorTransfer::of_code(c) == Some(self) ==> c == self.code_point(),
    {
    }

    /// The length of each common name and its characters at the places
    /// 5 and 8 and 11: together they tell the names apart.
    pub proof fn common_word_marks(self)
        ensures
            match self {
                ColorTransfer::Bt709 => self.common_word().len() == 5,
                ColorTransfer::Unspecified => self.common_word().len() == 7 && self.common_word()[5] == 'w',
                ColorTransfer::Bt470m => self.common_word().len() == 6 && self.common_word()[5] == 'm',
                ColorTransfer::Bt470bg => self.common_word().len() == 7 && self.common_word()[5] == 'b',
                ColorTransfer::Smpte170m => self.common_word().len() == 9 && self.common_word()[5] == '1' && self.common_word()[8] == 'm',
                ColorTransfer::Smpte240m => self.common_word().len() == 9 && self.common_word()[5] == '2' && self.common_word()[8] == 'm',
                ColorTransfer::Linear => self.common_word().len() == 6 && self.common_word()[5] == 'r',
                ColorTransfer::Log100 => self.common_word().len() == 6 && self.common_word()[5] == '0',
                ColorTransfer::Log316 => self.common_word().len() == 6 && self.common_word()[5] == '6',
                ColorTransfer::Iec61966_2_4 => self.common_word().len() == 12 && self.common_word()[5] == '9' && self.common_word()[8] == '-' && self.common_word()[11] == '4',
                ColorTransfer::Bt1361e => self.common_word().len() == 7 && self.common_word()[5] == '1',
                ColorTransfer::Srgb => self.common_word().len() == 12 && self.common_word()[5] == '9' && self.common_word()[8] == '-' && self.common_word()[11] == '1',
                ColorTransfer::Bt2020_10 => self.common_word().len() == 9 && self.common_word()[5] == '0' && self.common_word()[8] == '0',
                ColorTransfer::Bt2020_12 => self.common_word().len() == 9 && self.common_word()[5] == '0' && self.common_word()[8] == '2',
                ColorTransfer::Pq => self.common_word().len() == 9 && self.common_word()[5] == '2' && self.common_word()[8] == '4',
                ColorTransfer::Smpte428 => self.common_word().len() == 8 && self.common_word()[5] == '4',
                ColorTransfer::Hlg => self.common_word().len() == 12 && self.common_word()[5] == 's' && self.common_word()[8] == '-' && self.common_word()[11] == '7',
            },
    {
        reveal_strlit("bt709");
        reveal_strlit("unknown");
        reveal_strlit("bt470m");
        reveal_strlit("bt470bg");
        reveal_strlit("smpte170m");
        reveal_strlit("smpte240m");
        reveal_strlit("linear");
        reveal_strlit("log100");
        reveal_strlit("log316");
        reveal_strlit("iec61966-2-4");
        reveal_strlit("bt1361e");
        reveal_strlit("iec61966-2-1");
        reveal_strlit("bt2020-10");
        reveal_strlit("bt2020-12");
        reveal_strlit("smpte2084");
        reveal_strlit("smpte428");
        reveal_strlit("arib-std-b67");
    }

    /// Two values with the same common name are one value.
    pub proof fn common_word_distinct(self, other: ColorTransfer)
        requires
            self.common_word() == other.common_word(),
        ensures
            self == other,
    {
        self.common_word_marks();
        other.common_word_marks();
    }

    /// The length of each rav1e name and its characters at the places
    /// 2 and 5 and 8: together they tell the names apart.
    pub proof fn rav1e_word_marks(self)
        ensures
            match self {
                ColorTransfer::Bt709 => self.rav1e_word().len() == 5 && self.rav1e_word()[2] == '7',
                ColorTransfer::Unspecified => self.rav1e_word().len() == 11 && self.rav1e_word()[2] == 's' && self.rav1e_word()[5] == 'c' && self.rav1e_word()[8] == 'i',
                ColorTransfer::Bt470m => self.rav1e_word().len() == 6 && self.rav1e_word()[2] == '4' && self.rav1e_word()[5] == 'M',
                ColorTransfer::Bt470bg => self.rav1e_word().len() == 7 && self.rav1e_word()[2] == '4' && self.rav1e_word()[5] == 'B',
                ColorTransfer::Smpte170m => self.rav1e_word().len() == 5 && self.rav1e_word()[2] == '6',
                ColorTransfer::Smpte240m => self.rav1e_word().len() == 8 && self.rav1e_word()[2] == 'P' && self.rav1e_word()[5] == '2',
                ColorTransfer::Linear => self.rav1e_word().len() == 6 && self.rav1e_word()[2] == 'n' && self.rav1e_word()[5] == 'r',
                ColorTransfer::Log100 => self.rav1e_word().len() == 6 && self.rav1e_word()[2] == 'g' && self.rav1e_word()[5] == '0',
                ColorTransfer::Log316 => self.rav1e_word().len() == 12 && self.rav1e_word()[2] == 'g' && self.rav1e_word()[5] == '0' && self.rav1e_word()[8] == 'r',
                ColorTransfer::Iec61966_2_4 => self.rav1e_word().len() == 8 && self.rav1e_word()[2] == 'C' && self.rav1e_word()[5] == '9',
                ColorTransfer::Bt1361e => self.rav1e_word().len() == 6 && self.rav1e_word()[2] == '1' && self.rav1e_word()[5] == '1',
                ColorTransfer::Srgb => self.rav1e_word().len() == 4 && self.rav1e_word()[2] == 'G',
                ColorTransfer::Bt2020_10 => self.rav1e_word().len() == 12 && self.rav1e_word()[2] == '2' && self.rav1e_word()[5] == '0' && self.rav1e_word()[8] == '0',
                ColorTransfer::Bt2020_12 => self.rav1e_word().len() == 12 && self.rav1e_word()[2] == '2' && self.rav1e_word()[5] == '0' && self.rav1e_word()[8] == '2',
                ColorTransfer::Pq => self.rav1e_word().len() == 9 && self.rav1e_word()[2] == 'P' && self.rav1e_word()[5] == '2' && self.rav1e_word()[8] == '4',
                ColorTransfer::Smpte428 => self.rav1e_word().len() == 8 && self.rav1e_word()[2] == 'P' && self.rav1e_word()[5] == '4',
                ColorTransfer::Hlg => self.rav1e_word().len() == 3 && self.rav1e_word()[2] == 'G',
            },
    {
        reveal_strlit("BT709");
        reveal_strlit("Unspecified");
        reveal_strlit("BT470M");
        reveal_strlit("BT470BG");
        reveal_strlit("BT601");
        reveal_strlit("SMPTE240");
        reveal_strlit("Linear");
        reveal_strlit("Log100");
        reveal_strlit("Log100Sqrt10");
        reveal_strlit("IEC61966");
        reveal_strlit("BT1361");
        reveal_strlit("SRGB");
        reveal_strlit("BT2020_10Bit");
        reveal_strlit("BT2020_12Bit");
        reveal_strlit("SMPTE2084");
        reveal_strlit("SMPTE428");
        reveal_strlit("HLG");
    }

    /// Two values with the same rav1e name are one value.
    pub proof fn rav1e_word_distinct(self, other: ColorTransfer)
        requires
            self.rav1e_word() == other.rav1e_word(),
        ensures
            self == other,
    {
        self.rav1e_word_marks();
        other.rav1e_word_marks();
    }

    /// No text of a value is empty or starts with a hyphen, so none can be
    /// taken for an option.
    pub proof fn word_is_no_option(self, syntax: Syntax)
        requires
            self.word(syntax) is Some,
        ensures
            self.word(syntax)->0.len() > 0,
            self.word(syntax)->0[0] != '-',
    {
        reveal_strlit("BT1361");
        reveal_strlit("BT2020_10Bit");
        reveal_strlit("BT2020_12Bit");
        reveal_strlit("BT470BG");
        reveal_strlit("BT470M");
        reveal_strlit("BT601");
        reveal_strlit("BT709");
        reveal_strlit("HLG");
        reveal_strlit("IEC61966");
        reveal_strlit("Linear");
        reveal_strlit("Log100");
        reveal_strlit("Log100Sqrt10");
        reveal_strlit("SMPTE2084");
        reveal_strlit("SMPTE240");
        reveal_strlit("SMPTE428");
        reveal_strlit("SRGB");
        reveal_strlit("Unspecified");
        reveal_strlit("arib-std-b67");
        reveal_strlit("bt1361e");
        reveal_strlit("bt2020-10");
        reveal_strlit("bt2020-12");
        reveal_strlit("bt470bg");
        reveal_strlit("bt470m");
        reveal_strlit("bt709");
        reveal_strlit("iec61966-2-1");
        reveal_strlit("iec61966-2-4");
        reveal_strlit("linear");
        reveal_strlit("log100");
        reveal_strlit("log316");
        reveal_strlit("smpte170m");
        reveal_strlit("smpte2084");
        reveal_strlit("smpte240m");
        reveal_strlit("smpte428");
        reveal_strlit("unknown");
        assert(self.common_word().len() > 0 && self.common_word()[0] != '-');
        assert(self.rav1e_word().len() > 0 && self.rav1e_word()[0] != '-');
    }

    /// In one syntax two values never share a text.
    pub proof fn word_distinct(self, other: ColorTransfer, syntax: Syntax)
        requires
            self.word(syntax) is Some,
            self.word(syntax) == other.word(syntax),
        ensures
            self == other,
    {
        match syntax {
            Syntax::Plain | Syntax::X265 => {
                self.common_word_distinct(other);
            },
            Syntax::Rav1e => {
                self.rav1e_word_distinct(other);
            },
            Syntax::Mkvmerge => {
                let a = decimal(self.code_point() as nat);
                let b = decimal(other.code_point() as nat);
                assert(on_video_track(a).skip(2) =~= a);
                assert(on_video_track(b).skip(2) =~= b);
                decimal_round_trip(self.code_point() as nat);
                decimal_round_trip(other.code_point() as nat);
                self.code_round_trip();
                other.code_round_trip();
            },
        }
    }

    /// Reading back the text that was written for a value gives the value.
    pub proof fn word_round_trip(self, syntax: Syntax)
        requires
            self.word(syntax) is Some,
        ensures
            ColorTransfer::of_word(syntax, self.word(syntax)->0) == Some(self),
    {
        let s = self.word(syntax)->0;
        let found = choose|v: ColorTransfer| v.word(syntax) == Some(s);
        found.word_distinct(self, syntax);
    }

    /// The H.273 code point of the value.
    pub fn code(self) -> (c: u8)
        ensures
            c == self.code_point(),
    {
        match self {
            ColorTransfer::Bt709 => 1,
            ColorTransfer::Unspecified => 2,
            ColorTransfer::Bt470m => 4,
            ColorTransfer::Bt470bg => 5,
            ColorTransfer::Smpte170m => 6,
            ColorTransfer::Smpte240m => 7,
            ColorTransfer::Linear => 8,
            ColorTransfer::Log100 => 9,
            ColorTransfer::Log316 => 10,
            ColorTransfer::Iec61966_2_4 => 11,
            ColorTransfer::Bt1361e => 12,
            ColorTransfer::Srgb => 13,
            ColorTransfer::Bt2020_10 => 14,
            ColorTransfer::Bt2020_12 => 15,
            ColorTransfer::Pq => 16,
            ColorTransfer::Smpte428 => 17,
            ColorTransfer::Hlg => 18,
        }
    }

    /// The value with the H.273 code point `c`; none for a code point
    /// that the standard reserves.
    pub fn from_code(c: u8) -> (r: Option<ColorTransfer>)
        ensures
            r == ColorTransfer::of_code(c),
    {
        match c {
            1 => Some(ColorTransfer::Bt709),
            2 => Some(ColorTransfer::Unspecified),
            4 => Some(ColorTransfer::Bt470m),
            5 => Some(ColorTransfer::Bt470bg),
            6 => Some(ColorTransfer::Smpte170m),
            7 => Some(ColorTransfer::Smpte240m),
            8 => Some(ColorTransfer::Linear),
            9 => Some(ColorTransfer::Log100),
            10 => Some(ColorTransfer::Log316),
            11 => Some(ColorTransfer::Iec61966_2_4),
            12 => Some(ColorTransfer::Bt1361e),
            13 => Some(ColorTransfer::Srgb),
            14 => Some(ColorTransfer::Bt2020_10),
            15 => Some(ColorTransfer::Bt2020_12),
            16 => Some(ColorTransfer::Pq),
            17 => Some(ColorTransfer::Smpte428),
            18 => Some(ColorTransfer::Hlg),
            _ => None,
        }
    }

    /// The common name of the value.
    pub fn common_name(self) -> (t: &'static str)
        ensures
            t@ == self.common_word(),
    {
        match self {
            ColorTransfer::Bt709 => "bt709",
            ColorTransfer::Unspecified => "unknown",
            ColorTransfer::Bt470m => "bt470m",
            ColorTransfer::Bt470bg => "bt470bg",
            ColorTransfer::Smpte170m => "smpte170m",
            ColorTransfer::Smpte240m => "smpte240m",
            ColorTransfer::Linear => "linear",
            ColorTransfer::Log100 => "log100",
            ColorTransfer::Log316 => "log316",
            ColorTransfer::Iec61966_2_4 => "iec61966-2-4",
            ColorTransfer::Bt1361e => "bt1361e",
            ColorTransfer::Srgb => "iec61966-2-1",
            ColorTransfer::Bt2020_10 => "bt2020-10",
            ColorTransfer::Bt2020_12 => "bt2020-12",
            ColorTransfer::Pq => "smpte2084",
            ColorTransfer::Smpte428 => "smpte428",
            ColorTransfer::Hlg => "arib-std-b67",
        }
    }

    /// The rav1e name of the value.
    pub fn rav1e_name(self) -> (t: &'static str)
        ensures
            t@ == self.rav1e_word(),
    {
        match self {
            ColorTransfer::Bt709 => "BT709",
            ColorTransfer::Unspecified => "Unspecified",
            ColorTransfer::Bt470m => "BT470M",
            ColorTransfer::Bt470bg => "BT470BG",
            ColorTransfer::Smpte170m => "BT601",
            ColorTransfer::Smpte240m => "SMPTE240",
            ColorTransfer::Linear => "Linear",
            ColorTransfer::Log100 => "Log100",
            ColorTransfer::Log316 => "Log100Sqrt10",
            ColorTransfer::Iec61966_2_4 => "IEC61966",
            ColorTransfer::Bt1361e => "BT1361",
            ColorTransfer::Srgb => "SRGB",
            ColorTransfer::Bt2020_10 => "BT2020_10Bit",
            ColorTransfer::Bt2020_12 => "BT2020_12Bit",
            ColorTransfer::Pq => "SMPTE2084",
            ColorTransfer::Smpte428 => "SMPTE428",
            ColorTransfer::Hlg => "HLG",
        }
    }

    /// The text that stands for the value in `syntax`, or `None` where the
    /// syntax cannot name it.
    pub fn text(self, syntax: Syntax) -> (r: Option<String>)
        ensures
            r is Some <==> self.word(syntax) is Some,
            r is Some ==> r->0@ == self.word(syntax)->0,
    {
        match syntax {
            Syntax::Plain => Some(String::from_str(self.common_name())),
            Syntax::X265 => Some(String::from_str(self.common_name())),
            Syntax::Rav1e => Some(String::from_str(self.rav1e_name())),
            Syntax::Mkvmerge => {
                let mut t = video_track_prefix();
                append_decimal(&mut t, self.code() as u64);
                Some(t)
            },
        }
    }

    /// The value that `s` stands for in `syntax`, or `None` where it stands
    /// for none.
    pub fn from_text(syntax: Syntax, s: &[char]) -> (r: Option<ColorTransfer>)
        ensures
            r == ColorTransfer::of_word(syntax, s@),
            r is Some <==> exists|v: ColorTransfer| v.word(syntax) == Some(s@),
            r is Some ==> r->0.word(syntax) == Some(s@),
    {
        let mut c: u8 = 0;
        while c < 19
            invariant
                0 <= c <= 19,
                forall|v: ColorTransfer| v.code_point() < c ==> v.word(syntax) != Some(s@),
            decreases 19 - c,
        {
            if let Some(v) = ColorTransfer::from_code(c) {
                if let Some(t) = v.text(syntax) {
                    if same_text(s, t.as_str()) {
                        proof {
                            let found = choose|w: ColorTransfer| w.word(syntax) == Some(s@);
                            found.word_distinct(v, syntax);
                        }
                        return Some(v);
                    }
                }
            }
            proof {
                assert forall|v: ColorTransfer| v.code_point() < c + 1 implies v.word(syntax) != Some(
                    s@,
                ) by {
                    v.code_round_trip();
                }
            }
            c = c + 1;
        }
        None
    }
}

/// The chromaticities of the colour primaries, by their code points in
/// ITU-T H.273.
#[derive(Clone, Copy, Debug, PartialEq, Eq, Structural)]
pub enum ColorPrimaries {
    Bt709,
    Unspecified,
    Bt470m,
    Bt470bg,
    Smpte170m,
    Smpte240m,
    Film,
    Bt2020,
    Smpte428,
    Smpte431,
    Smpte432,
    Ebu3213,
}

impl ColorPrimaries {
    /// The H.273 code point of the value.
    pub open spec fn code_point(self) -> u8 {
        match self {
            ColorPrimaries::Bt709 => 1,
            ColorPrimaries::Unspecified => 2,
            ColorPrimaries::Bt470m => 4,
            ColorPrimaries::Bt470bg => 5,
            ColorPrimaries::Smpte170m => 6,
            ColorPrimaries::Smpte240m => 7,
            ColorPrimaries::Film => 8,
            ColorPrimaries::Bt2020 => 9,
            ColorPrimaries::Smpte428 => 10,
            ColorPrimaries::Smpte431 => 11,
            ColorPrimaries::Smpte432 => 12,
            ColorPrimaries::Ebu3213 => 22,
        }
    }

    /// The value with the H.273 code point `c`, where there is one.
    pub open spec fn of_code(c: u8) -> Option<ColorPrimaries> {
        if c == 1 {
            Some(ColorPrimaries::Bt709)
        } else if c == 2 {
            Some(ColorPrimaries::Unspecified)
        } else if c == 4 {
            Some(ColorPrimaries::Bt470m)
        } else if c == 5 {
            Some(ColorPrimaries::Bt470bg)
        } else if c == 6 {
            Some(ColorPrimaries::Smpte170m)
        } else if c == 7 {
            Some(ColorPrimaries::Smpte240m)
        } else if c == 8 {
            Some(ColorPrimaries::Film)
        } else if c == 9 {
            Some(ColorPrimaries::Bt2020)
        } else if c == 10 {
            Some(ColorPrimaries::Smpte428)
        } else if c == 11 {
            Some(ColorPrimaries::Smpte431)
        } else if c == 12 {
            Some(ColorPrimaries::Smpte432)
        } else if c == 22 {
            Some(ColorPrimaries::Ebu3213)
        } else {
            None
        }
    }

    /// The name that the prober, and a reader, knows the value by.
    pub open spec fn common_word(self) -> Seq<char> {
        match self {
            ColorPrimaries::Bt709 => "bt709"@,
            ColorPrimaries::Unspecified => "unknown"@,
            ColorPrimaries::Bt470m => "bt470m"@,
            ColorPrimaries::Bt470bg => "bt470bg"@,
            ColorPrimaries::Smpte170m => "smpte170m"@,
            ColorPrimaries::Smpte240m => "smpte240m"@,
            ColorPrimaries::Film => "film"@,
            ColorPrimaries::Bt2020 => "bt2020"@,
            ColorPrimaries::Smpte428 => "smpte428"@,
            ColorPrimaries::Smpte431 => "smpte431"@,
            ColorPrimaries::Smpte432 => "smpte432"@,
            ColorPrimaries::Ebu3213 => "ebu3213"@,
        }
    }

    /// The name that rav1e knows the value by.
    pub open spec fn rav1e_word(self) -> Seq<char> {
        match self {
            ColorPrimaries::Bt709 => "BT709"@,
            ColorPrimaries::Unspecified => "Unspecified"@,
            ColorPrimaries::Bt470m => "BT470M"@,
            ColorPrimaries::Bt470bg => "BT470BG"@,
            ColorPrimaries::Smpte170m => "BT601"@,
            ColorPrimaries::Smpte240m => "SMPTE240"@,
            ColorPrimaries::Film => "GenericFilm"@,
            ColorPrimaries::Bt2020 => "BT2020"@,
            ColorPrimaries::Smpte428 => "XYZ"@,
            ColorPrimaries::Smpte431 => "SMPTE431"@,
            ColorPrimaries::Smpte432 => "SMPTE432"@,
            ColorPrimaries::Ebu3213 => "EBU3213"@,
        }
    }

    /// The text that stands for the value in `syntax`, where the syntax
    /// has one: x265 shares the common names but has none for EBU 3213, mkvmerge
    /// takes the code point on the video track.
    pub open spec fn word(self, syntax: Syntax) -> Option<Seq<char>> {
        match syntax {
            Syntax::Plain => Some(self.common_word()),
            Syntax::X265 => if self == ColorPrimaries::Ebu3213 {
                None
            } else {
                Some(self.common_word())
            },
            Syntax::Rav1e => Some(self.rav1e_word()),
            Syntax::Mkvmerge => Some(on_video_track(decimal(self.code_point() as nat))),
        }
    }

    /// The value that `s` stands for in `syntax`, where it stands for one.
    pub open spec fn of_word(syntax: Syntax, s: Seq<char>) -> Option<ColorPrimaries> {
        if exists|v: ColorPrimaries| v.word(syntax) == Some(s) {
            Some(choose|v: ColorPrimaries| v.word(syntax) == Some(s))
        } else {
            None
        }
    }

    /// A value's code point leads back to the value, and no other code
    /// point does.
    pub proof fn code_round_trip(self)
        ensures
            ColorPrimaries::of_code(self.code_point()) == Some(self),
            forall|c: u8| ColorPrimaries::of_code(c) == Some(self) ==> c == self.code_point(),
    {
    }

    /// The length of each common name and its characters at the places
    /// 5 and 7: together they tell the names apart.
    pub proof fn common_word_marks(self)
        ensures
            match self {
                ColorPrimaries::Bt709 => self.common_word().len() == 5,
                ColorPrimaries::Unspecified => self.common_word().len() == 7 && self.common_word()[5] == 'w',
                ColorPrimaries::Bt470m => self.common_word().len() == 6 && self.common_word()[5] == 'm',
                ColorPrimaries::Bt470bg => self.common_word().len() == 7 && self.common_word()[5] == 'b',
                ColorPrimaries::Smpte170m => self.common_word().len() == 9 && self.common_word()[5] == '1' && self.common_word()[7] == '0',
                ColorPrimaries::Smpte240m => self.common_word().len() == 9 && self.common_word()[5] == '2' && self.common_word()[7] == '0',
                ColorPrimaries::Film => self.common_word().len() == 4,
                ColorPrimaries::Bt2020 => self.common_word().len() == 6 && self.common_word()[5] == '0',
                ColorPrimaries::Smpte428 => self.common_word().len() == 8 && self.common_word()[5] == '4' && self.common_word()[7] == '8',
                ColorPrimaries::Smpte431 => self.common_word().len() == 8 && self.common_word()[5] == '4' && self.common_word()[7] == '1',
                ColorPrimaries::Smpte432 => self.common_word().len() == 8 && self.common_word()[5] == '4' && self.common_word()[7] == '2',
                ColorPrimaries::Ebu3213 => self.common_word().len() == 7 && self.common_word()[5] == '1',
            },
    {
        reveal_strlit("bt709");
        reveal_strlit("unknown");
        reveal_strlit("bt470m");
        reveal_strlit("bt470bg");
        reveal_strlit("smpte170m");
        reveal_strlit("smpte240m");
        reveal_strlit("film");
        reveal_strlit("bt2020");
        reveal_strlit("smpte428");
        reveal_strlit("smpte431");
        reveal_strlit("smpte432");
        reveal_strlit("ebu3213");
    }

    /// Two values with the same common name are one value.
    pub proof fn common_word_distinct(self, other: ColorPrimaries)
        requires
            self.common_word() == other.common_word(),
        ensures
            self == other,
    {
        self.common_word_marks();
        other.common_word_marks();
    }

    /// The length of each rav1e name and its characters at the places
    /// 2 and 7: together they tell the names apart.
    pub proof fn rav1e_word_marks(self)
        ensures
            match self {
                ColorPrimaries::Bt709 => self.rav1e_word().len() == 5 && self.rav1e_word()[2] == '7',
                ColorPrimaries::Unspecified => self.rav1e_word().len() == 11 && self.rav1e_word()[2] == 's' && self.rav1e_word()[7] == 'f',
                ColorPrimaries::Bt470m => self.rav1e_word().len() == 6 && self.rav1e_word()[2] == '4',
                ColorPrimaries::Bt470bg => self.rav1e_word().len() == 7 && self.rav1e_word()[2] == '4',
                ColorPrimaries::Smpte170m => self.rav1e_word().len() == 5 && self.rav1e_word()[2] == '6',
                ColorPrimaries::Smpte240m => self.rav1e_word().len() == 8 && self.rav1e_word()[2] == 'P' && self.rav1e_word()[7] == '0',
                ColorPrimaries::Film => self.rav1e_word().len() == 11 && self.rav1e_word()[2] == 'n' && self.rav1e_word()[7] == 'F',
                ColorPrimaries::Bt2020 => self.rav1e_word().len() == 6 && self.rav1e_word()[2] == '2',
                ColorPrimaries::Smpte428 => self.rav1e_word().len() == 3 && self.rav1e_word()[2] == 'Z',
                ColorPrimaries::Smpte431 => self.rav1e_word().len() == 8 && self.rav1e_word()[2] == 'P' && self.rav1e_word()[7] == '1',
                ColorPrimaries::Smpte432 => self.rav1e_word().len() == 8 && self.rav1e_word()[2] == 'P' && self.rav1e_word()[7] == '2',
                ColorPrimaries::Ebu3213 => self.rav1e_word().len() == 7 && self.rav1e_word()[2] == 'U',
            },
    {
        reveal_strlit("BT709");
        reveal_strlit("Unspecified");
        reveal_strlit("BT470M");
        reveal_strlit("BT470BG");
        reveal_strlit("BT601");
        reveal_strlit("SMPTE240");
        reveal_strlit("GenericFilm");
        reveal_strlit("BT2020");
        reveal_strlit("XYZ");
        reveal_strlit("SMPTE431");
        reveal_strlit("SMPTE432");
        reveal_strlit("EBU3213");
    }

    /// Two values with the same rav1e name are one value.
    pub proof fn rav1e_word_distinct(self, other: ColorPrimaries)
        requires
            self.rav1e_word() == other.rav1e_word(),
        ensures
            self == other,
    {
        self.rav1e_word_marks();
        other.rav1e_word_marks();
    }

    /// No text of a value is empty or starts with a hyphen, so none can be
    /// taken for an option.
    pub proof fn word_is_no_option(self, syntax: Syntax)
        requires
            self.word(syntax) is Some,
        ensures
            self.word(syntax)->0.len() > 0,
            self.word(syntax)->0[0] != '-',
    {
        reveal_strlit("BT2020");
        reveal_strlit("BT470BG");
        reveal_strlit("BT470M");
        reveal_strlit("BT601");
        reveal_strlit("BT709");
        reveal_strlit("EBU3213");
        reveal_strlit("GenericFilm");
        reveal_strlit("SMPTE240");
        reveal_strlit("SMPTE431");
        reveal_strlit("SMPTE432");
        reveal_strlit("Unspecified");
        reveal_strlit("XYZ");
        reveal_strlit("bt2020");
        reveal_strlit("bt470bg");
        reveal_strlit("bt470m");
        reveal_strlit("bt709");
        reveal_strlit("ebu3213");
        reveal_strlit("film");
        reveal_strlit("smpte170m");
        reveal_strlit("smpte240m");
        reveal_strlit("smpte428");
        reveal_strlit("smpte431");
        reveal_strlit("smpte432");
        reveal_strlit("unknown");
        assert(self.common_word().len() > 0 && self.common_word()[0] != '-');
        assert(self.rav1e_word().len() > 0 && self.rav1e_word()[0] != '-');
    }

    /// In one syntax two values never share a text.
    pub proof fn word_distinct(self, other: ColorPrimaries, syntax: Syntax)
        requires
            self.word(syntax) is Some,
            self.word(syntax) == other.word(syntax),
        ensures
            self == other,
    {
        match syntax {
            Syntax::Plain | Syntax::X265 => {
                self.common_word_distinct(other);
            },
            Syntax::Rav1e => {
                self.rav1e_word_distinct(other);
            },
            Syntax::Mkvmerge => {
                let a = decimal(self.code_point() as nat);
                let b = decimal(other.code_point() as nat);
                assert(on_video_track(a).skip(2) =~= a);
                assert(on_video_track(b).skip(2) =~= b);
                decimal_round_trip(self.code_point() as nat);
                decimal_round_trip(other.code_point() as nat);
                self.code_round_trip();
                other.code_round_trip();
            },
        }
    }

    /// Reading back the text that was written for a value gives the value.
    pub proof fn word_round_trip(self, syntax: Syntax)
        requires
            self.word(syntax) is Some,
        ensures
            ColorPrimaries::of_word(syntax, self.word(syntax)->0) == Some(self),
    {
        let s = self.word(syntax)->0;
        let found = choose|v: ColorPrimaries| v.word(syntax) == Some(s);
        found.word_distinct(self, syntax);
    }

    /// The H.273 code point of the value.
    pub fn code(self) -> (c: u8)
        ensures
            c == self.code_point(),
    {
        match self {
            ColorPrimaries::Bt709 => 1,
            ColorPrimaries::Unspecified => 2,
            ColorPrimaries::Bt470m => 4,
            ColorPrimaries::Bt470bg => 5,
            ColorPrimaries::Smpte170m => 6,
            ColorPrimaries::Smpte240m => 7,
            ColorPrimaries::Film => 8,
            ColorPrimaries::Bt2020 => 9,
            ColorPrimaries::Smpte428 => 10,
            ColorPrimaries::Smpte431 => 11,
            ColorPrimaries::Smpte432 => 12,
            ColorPrimaries::Ebu3213 => 22,
        }
    }

    /// The value with the H.273 code point `c`; none for a code point
    /// that the standard reserves.
    pub fn from_code(c: u8) -> (r: Option<ColorPrimaries>)
        ensures
            r == ColorPrimaries::of_code(c),
    {
        match c {
            1 => Some(ColorPrimaries::Bt709),
            2 => Some(ColorPrimaries::Unspecified),
            4 => Some(ColorPrimaries::Bt470m),
            5 => Some(ColorPrimaries::Bt470bg),
            6 => Some(ColorPrimaries::Smpte170m),
            7 => Some(ColorPrimaries::Smpte240m),
            8 => Some(ColorPrimaries::Film),
            9 => Some(ColorPrimaries::Bt2020),
            10 => Some(ColorPrimaries::Smpte428),
            11 => Some(ColorPrimaries::Smpte431),
            12 => Some(ColorPrimaries::Smpte432),
            22 => Some(ColorPrimaries::Ebu3213),
            _ => None,
        }
    }

    /// The common name of the value.
    pub fn common_name(self) -> (t: &'static str)
        ensures
            t@ == self.common_word(),
    {
        match self {
            ColorPrimaries::Bt709 => "bt709",
            ColorPrimaries::Unspecified => "unknown",
            ColorPrimaries::Bt470m => "bt470m",
            ColorPrimaries::Bt470bg => "bt470bg",
            ColorPrimaries::Smpte170m => "smpte170m",
            ColorPrimaries::Smpte240m => "smpte240m",
            ColorPrimaries::Film => "film",
            ColorPrimaries::Bt2020 => "bt2020",
            ColorPrimaries::Smpte428 => "smpte428",
            ColorPrimaries::Smpte431 => "smpte431",
            ColorPrimaries::Smpte432 => "smpte432",
            ColorPrimaries::Ebu3213 => "ebu3213",
        }
    }

    /// The rav1e name of the value.
    pub fn rav1e_name(self) -> (t: &'static str)
        ensures
            t@ == self.rav1e_word(),
    {
        match self {
            ColorPrimaries::Bt709 => "BT709",
            ColorPrimaries::Unspecified => "Unspecified",
            ColorPrimaries::Bt470m => "BT470M",
            ColorPrimaries::Bt470bg => "BT470BG",
            ColorPrimaries::Smpte170m => "BT601",
            ColorPrimaries::Smpte240m => "SMPTE240",
            ColorPrimaries::Film => "GenericFilm",
            ColorPrimaries::Bt2020 => "BT2020",
            ColorPrimaries::Smpte428 => "XYZ",
            ColorPrimaries::Smpte431 => "SMPTE431",
            ColorPrimaries::Smpte432 => "SMPTE432",
            ColorPrimaries::Ebu3213 => "EBU3213",
        }
    }

    /// The text that stands for the value in `syntax`, or `None` where the
    /// syntax cannot name it.
    pub fn text(self, syntax: Syntax) -> (r: Option<String>)
        ensures
            r is Some <==> self.word(syntax) is Some,
            r is Some ==> r->0@ == self.word(syntax)->0,
    {
        match syntax {
            Syntax::Plain => Some(String::from_str(self.common_name())),
            Syntax::X265 => match self {
                ColorPrimaries::Ebu3213 => None,
                _ => Some(String::from_str(self.common_name())),
            },
            Syntax::Rav1e => Some(String::from_str(self.rav1e_name())),
            Syntax::Mkvmerge => {
                let mut t = video_track_prefix();
                append_decimal(&mut t, self.code() as u64);
                Some(t)
            },
        }
    }

    /// The value that `s` stands for in `syntax`, or `None` where it stands
    /// for none.
    pub fn from_text(syntax: Syntax, s: &[char]) -> (r: Option<ColorPrimaries>)
        ensures
            r == ColorPrimaries::of_word(syntax, s@),
            r is Some <==> exists|v: ColorPrimaries| v.word(syntax) == Some(s@),
            r is Some ==> r->0.word(syntax) == Some(s@),
    {
        let mut c: u8 = 0;
        while c < 23
            invariant
                0 <= c <= 23,
                forall|v: ColorPrimaries| v.code_point() < c ==> v.word(syntax) != Some(s@),
            decreases 23 - c,
        {
            if let Some(v) = ColorPrimaries::from_code(c) {
                if let Some(t) = v.text(syntax) {
                    if same_text(s, t.as_str()) {
                        proof {
                            let found = choose|w: ColorPrimaries| w.word(syntax) == Some(s@);
                            found.word_distinct(v, syntax);
                        }
                        return Some(v);
                    }
                }
            }
            proof {
                assert forall|v: ColorPrimaries| v.code_point() < c + 1 implies v.word(syntax) != Some(
                    s@,
                ) by {
                    v.code_round_trip();
                }
            }
            c = c + 1;
        }
        None
    }
}

} // verus!
