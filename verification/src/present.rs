//! The presenter: the model as text, for a reader or as the options of one
//! of the three tools.
use crate::mapper::{label, label_text, Field};
use crate::metadata::Metadata;
use crate::text::{chars_of, join_spaced, same_text, spaced};
use crate::values::Syntax;
use vstd::prelude::*;

verus! {

/// A format was asked for that is none of the three that are known.
#[derive(Clone, Debug)]
pub struct InvalidFormat {
    /// The name that was asked for.
    pub name: String,
}

/// The name of a format as a plain value.
pub open spec fn format_view(format: Option<&str>) -> Option<Seq<char>> {
    match format {
        Some(name) => Some(name@),
        None => None,
    }
}

impl Syntax {
    /// The syntax that a format stands for: the plain one where no format
    /// is asked for, the tool's where the format is the name of one of the
    /// three tools, in lower case; none otherwise.
    pub open spec fn of_format(format: Option<Seq<char>>) -> Option<Syntax> {
        match format {
            None => Some(Syntax::Plain),
            Some(name) => if name == "x265"@ {
                Some(Syntax::X265)
            } else if name == "rav1e"@ {
                Some(Syntax::Rav1e)
            } else if name == "mkvmerge"@ {
                Some(Syntax::Mkvmerge)
            } else {
                None
            },
        }
    }

    /// The syntax that `format` stands for, or the error that names what
    /// was asked for. This needs no model: a caller checks the format
    /// before it reads anything.
    pub fn from_format(format: Option<&str>) -> (r: Result<Syntax, InvalidFormat>)
        ensures
            r is Ok <==> Syntax::of_format(format_view(format)) is Some,
            r is Ok ==> r->Ok_0 == Syntax::of_format(format_view(format))->0,
            r is Err ==> format is Some && r->Err_0.name@ == format->0@,
    {
        match format {
            None => Ok(Syntax::Plain),
            Some(name) => {
                let chars = chars_of(name);
                if same_text(chars.as_slice(), "x265") {
                    Ok(Syntax::X265)
                } else if same_text(chars.as_slice(), "rav1e") {
                    Ok(Syntax::Rav1e)
                } else if same_text(chars.as_slice(), "mkvmerge") {
                    Ok(Syntax::Mkvmerge)
                } else {
                    Err(InvalidFormat { name: String::from_str(name) })
                }
            },
        }
    }
}

impl Metadata {
    /// The line that shows `field` to a reader: its label, a colon, its
    /// value with its unit; nothing where the field is absent.
    pub open spec fn summary_line(self, field: Field) -> Seq<char> {
        match self.cell(Syntax::Plain, field) {
            Some(value) => label(field) + seq![':', ' '] + value + seq!['\n'],
            None => Seq::empty(),
        }
    }

    /// The model for a reader: one line for each field that is present.
    pub open spec fn summary(self) -> Seq<char> {
        self.summary_line(Field::ColorSpace) + self.summary_line(Field::ColorTransfer)
            + self.summary_line(Field::ColorPrimaries) + self.summary_line(Field::MinLuminance)
            + self.summary_line(Field::MaxLuminance) + self.summary_line(Field::MaxContentLight)
            + self.summary_line(Field::MaxFrameAverageLight)
    }

    /// What is printed for the model in `syntax`: the summary for a reader,
    /// or one line with the options of the tool, a space between each two.
    pub open spec fn printed(self, syntax: Syntax) -> Seq<char> {
        if syntax == Syntax::Plain {
            self.summary()
        } else {
            spaced(self.options(syntax)) + seq!['\n']
        }
    }

    fn append_summary_line(&self, out: &mut String, field: Field)
        ensures
            final(out)@ == old(out)@ + self.summary_line(field),
    {
        match self.cell_text(Syntax::Plain, field) {
            Some(value) => {
                out.append(label_text(field));
                out.append(": ");
                out.append(value.as_str());
                out.append("\n");
                proof {
                    reveal_strlit(": ");
                    reveal_strlit("\n");
                    assert(": "@ =~= seq![':', ' ']);
                    assert("\n"@ =~= seq!['\n']);
                    assert(out@ =~= old(out)@ + self.summary_line(field));
                }
            },
            None => {
                assert(out@ =~= old(out)@ + self.summary_line(field));
            },
        }
    }

    /// The text to print for the model in `syntax`.
    pub fn print(&self, syntax: Syntax) -> (out: String)
        ensures
            out@ == self.printed(syntax),
    {
        match syntax {
            Syntax::Plain => {
                let mut out = String::new();
                self.append_summary_line(&mut out, Field::ColorSpace);
                self.append_summary_line(&mut out, Field::ColorTransfer);
                self.append_summary_line(&mut out, Field::ColorPrimaries);
                self.append_summary_line(&mut out, Field::MinLuminance);
                self.append_summary_line(&mut out, Field::MaxLuminance);
                self.append_summary_line(&mut out, Field::MaxContentLight);
                self.append_summary_line(&mut out, Field::MaxFrameAverageLight);
                assert(out@ =~= self.summary());
                out
            },
            _ => {
                let words = self.tokens(syntax);
                let mut out = join_spaced(&words);
                out.append("\n");
                proof {
                    reveal_strlit("\n");
                    assert(out@ =~= spaced(self.options(syntax)) + seq!['\n']);
                }
                out
            },
        }
    }
}

} // verus!
