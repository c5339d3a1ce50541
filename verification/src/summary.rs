//! A definition laid out to be shown: lines of spans, each span a text
//! and the tone it is shown in. Printing and colours are the caller's.

use vstd::prelude::*;
use crate::config::package::{
    BinaryInstall, BinaryInstallModel, ExtractOption, PackageConfig, PackageConfigModel,
    PackageSource, PackageSourceModel,
};

verus! {

/// How a span is shown.
#[derive(Debug, Clone, Copy, PartialEq, Eq, Structural)]
pub enum Tone {
    /// Words of the layout.
    Plain,
    /// A value taken from the definition.
    Accent,
    /// A line that sets the summary off.
    Rule,
}

/// A piece of a line.
#[derive(Debug, Clone, PartialEq, Eq)]
pub struct Span {
    pub text: String,
    pub tone: Tone,
}

/// `Span`, each text as the sequence of its characters.
pub struct SpanModel {
    pub text: Seq<char>,
    pub tone: Tone,
}

impl View for Span {
    type V = SpanModel;

    open spec fn view(&self) -> SpanModel {
        SpanModel { text: self.text@, tone: self.tone }
    }
}

/// One line of the summary.
#[derive(Debug, Clone, PartialEq, Eq)]
pub struct Line {
    pub spans: Vec<Span>,
}

impl View for Line {
    type V = Seq<SpanModel>;

    open spec fn view(&self) -> Seq<SpanModel> {
        Seq::new(self.spans@.len(), |i: int| self.spans@[i]@)
    }
}

/// The lines of `lines`, each by its model.
pub open spec fn lines_model(lines: Seq<Line>) -> Seq<Seq<SpanModel>> {
    Seq::new(lines.len(), |i: int| lines[i]@)
}

/// Words of the layout.
pub open spec fn plain(text: Seq<char>) -> SpanModel {
    SpanModel { text, tone: Tone::Plain }
}

/// A value taken from the definition.
pub open spec fn accent(text: Seq<char>) -> SpanModel {
    SpanModel { text, tone: Tone::Accent }
}

/// The line that sets the summary off.
pub open spec fn rule() -> Seq<SpanModel> {
    seq![SpanModel { text: "-----------------"@, tone: Tone::Rule }]
}

/// The line that shows a binary install.
pub open spec fn binary_line(binary: BinaryInstallModel) -> Seq<SpanModel> {
    let head = seq![plain("  "@), accent("Binary"@), plain(": "@), accent(binary.target)];
    let renamed = match binary.rename {
        Some(rename) => seq![plain(" -> "@), accent(rename)],
        None => Seq::empty(),
    };
    let tail = seq![
        plain(" (`"@),
        accent(binary.version.arg),
        plain("`, \""@),
        accent(binary.version.regex),
        plain("\")"@),
    ];
    head + renamed + tail
}

/// The whole summary of a definition, line by line.
pub open spec fn summary_of(config: PackageConfigModel) -> Seq<Seq<SpanModel>> {
    let PackageSourceModel::Github(github) = config.source;
    let top = seq![
        rule(),
        seq![plain("Picked package: "@), accent(config.meta.identifier)],
        seq![plain("Download from:"@)],
        seq![
            plain("  "@),
            accent("GitHub"@),
            plain(":  "@),
            accent(github.owner),
            plain("/"@),
            accent(github.repo),
        ],
        seq![plain("  Release: "@), accent(github.asset)],
        seq![
            plain("  Extract: "@),
            accent(ExtractOption::of_extract(github.extract).label_text()),
        ],
        seq![
            plain("  Version: from "@),
            accent(github.version.member.label_text()),
            plain(" with regex \""@),
            accent(github.version.regex),
            plain("\""@),
        ],
        seq![plain("Install to:"@)],
    ];
    let install = match config.install.binary {
        Some(binary) => seq![binary_line(binary)],
        None => Seq::empty(),
    };
    top + install + seq![rule()]
}

fn words(text: &str) -> (r: Span)
    ensures
        r@ == plain(text@),
{
    Span { text: text.to_owned(), tone: Tone::Plain }
}

fn value(text: &str) -> (r: Span)
    ensures
        r@ == accent(text@),
{
    Span { text: text.to_owned(), tone: Tone::Accent }
}

fn rule_line() -> (r: Line)
    ensures
        r@ == rule(),
{
    let mut spans: Vec<Span> = Vec::new();
    spans.push(Span { text: "-----------------".to_owned(), tone: Tone::Rule });
    let line = Line { spans };
    assert(line@ =~= rule());
    line
}

fn binary_summary(binary: &BinaryInstall) -> (r: Line)
    ensures
        r@ == binary_line(binary@),
{
    let mut spans: Vec<Span> = Vec::new();
    spans.push(words("  "));
    spans.push(value("Binary"));
    spans.push(words(": "));
    spans.push(value(binary.target.as_str()));
    if let Some(rename) = &binary.rename {
        spans.push(words(" -> "));
        spans.push(value(rename.as_str()));
    }
    spans.push(words(" (`"));
    spans.push(value(binary.version.arg.as_str()));
    spans.push(words("`, \""));
    spans.push(value(binary.version.regex.as_str()));
    spans.push(words("\")"));
    let line = Line { spans };
    assert(line@ =~= binary_line(binary@));
    line
}

/// Lays `config` out to be shown.
pub fn summarize(config: &PackageConfig) -> (r: Vec<Line>)
    ensures
        lines_model(r@) == summary_of(config@),
{
    let mut lines: Vec<Line> = Vec::new();
    lines.push(rule_line());

    let mut spans: Vec<Span> = Vec::new();
    spans.push(words("Picked package: "));
    spans.push(value(config.meta.identifier.as_str()));
    let line = Line { spans };
    assert(line@ =~= seq![plain("Picked package: "@), accent(config@.meta.identifier)]);
    lines.push(line);

    let mut spans: Vec<Span> = Vec::new();
    spans.push(words("Download from:"));
    let line = Line { spans };
    assert(line@ =~= seq![plain("Download from:"@)]);
    lines.push(line);

    match &config.source {
        PackageSource::Github(github) => {
            let mut spans: Vec<Span> = Vec::new();
            spans.push(words("  "));
            spans.push(value("GitHub"));
            spans.push(words(":  "));
            spans.push(value(github.owner.as_str()));
            spans.push(words("/"));
            spans.push(value(github.repo.as_str()));
            let line = Line { spans };
            assert(line@ =~= seq![
                plain("  "@),
                accent("GitHub"@),
                plain(":  "@),
                accent(github@.owner),
                plain("/"@),
                accent(github@.repo),
            ]);
            lines.push(line);

            let mut spans: Vec<Span> = Vec::new();
            spans.push(words("  Release: "));
            spans.push(value(github.asset.as_str()));
            let line = Line { spans };
            assert(line@ =~= seq![plain("  Release: "@), accent(github@.asset)]);
            lines.push(line);

            let extract = ExtractOption::from(github.extract).label();
            let mut spans: Vec<Span> = Vec::new();
            spans.push(words("  Extract: "));
            spans.push(value(extract.as_str()));
            let line = Line { spans };
            assert(line@ =~= seq![
                plain("  Extract: "@),
                accent(ExtractOption::of_extract(github@.extract).label_text()),
            ]);
            lines.push(line);

            let member = github.version.member.label();
            let mut spans: Vec<Span> = Vec::new();
            spans.push(words("  Version: from "));
            spans.push(value(member.as_str()));
            spans.push(words(" with regex \""));
            spans.push(value(github.version.regex.as_str()));
            spans.push(words("\""));
            let line = Line { spans };
            assert(line@ =~= seq![
                plain("  Version: from "@),
                accent(github@.version.member.label_text()),
                plain(" with regex \""@),
                accent(github@.version.regex),
                plain("\""@),
            ]);
            lines.push(line);
        },
    }

    let mut spans: Vec<Span> = Vec::new();
    spans.push(words("Install to:"));
    let line = Line { spans };
    assert(line@ =~= seq![plain("Install to:"@)]);
    lines.push(line);

    if let Some(binary) = &config.install.binary {
        lines.push(binary_summary(binary));
    }
    lines.push(rule_line());
    assert(lines_model(lines@) =~= summary_of(config@));
    lines
}

} // verus!
