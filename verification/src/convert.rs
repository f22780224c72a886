//! Converting one HEIC file: check the input, pick the output extension, find
//! a free output path, run the platform converter, keep the modified time.
//!
//! Every step that touches the disk is done by the caller: a conversion says
//! what it needs next (`action`) and is told how that went (`resume`).

use crate::paths::{opt_str_view, opt_view, path_file_stem};
use crate::search::{
    clone_result, lemma_found_path_was_free, lemma_start_wf, lemma_step_wf, result_view,
    search_action, search_start, search_step, search_wf, unique_output_path, OutputSearch,
    SearchAction, SearchActionView, SearchView,
};
use crate::text::same_text;
use vstd::prelude::*;

verus! {

pub open spec fn file_not_found_message() -> Seq<char> {
    "File not found"@
}

pub open spec fn unsupported_format_message(format: Seq<char>) -> Seq<char> {
    "Unsupported format: "@ + format
}

/// The extension of the output file for a target format: "jpeg" gives "jpg",
/// "png" gives "png"; any other format is refused.
pub open spec fn spec_output_extension(format: Seq<char>) -> Result<Seq<char>, Seq<char>> {
    if format == "jpeg"@ {
        Ok("jpg"@)
    } else if format == "png"@ {
        Ok("png"@)
    } else {
        Err(unsupported_format_message(format))
    }
}

/// The output extension for `format`, or the error for a format that is not supported.
pub fn output_extension(format: &str) -> (r: Result<String, String>)
    ensures
        result_view(r) == spec_output_extension(format@),
{
    if same_text(format, "jpeg") {
        Ok(String::from_str("jpg"))
    } else if same_text(format, "png") {
        Ok(String::from_str("png"))
    } else {
        let mut msg = String::from_str("Unsupported format: ");
        msg.append(format);
        Err(msg)
    }
}

/// A conversion of one file.
#[allow(inconsistent_fields)]
#[derive(Debug, PartialEq, Eq)]
pub enum Conversion {
    /// Whether the input is a file is asked next.
    CheckingInput { input: String, format: String, quality: u8, out_dir: Option<String> },
    /// A free output path is being searched for.
    Searching { input: String, format: String, quality: u8, search: OutputSearch },
    /// The platform converter is to write `output`.
    Converting { input: String, format: String, quality: u8, output: String },
    /// The modified time of `input` is to be copied to `output`.
    CopyingTime { input: String, output: String },
    /// The conversion is over: the output path, or the error.
    Finished(Result<String, String>),
}

#[allow(inconsistent_fields)]
pub enum ConversionView {
    CheckingInput { input: Seq<char>, format: Seq<char>, quality: u8, out_dir: Option<Seq<char>> },
    Searching { input: Seq<char>, format: Seq<char>, quality: u8, search: SearchView },
    Converting { input: Seq<char>, format: Seq<char>, quality: u8, output: Seq<char> },
    CopyingTime { input: Seq<char>, output: Seq<char> },
    Finished(Result<Seq<char>, Seq<char>>),
}

impl View for Conversion {
    type V = ConversionView;

    open spec fn view(&self) -> ConversionView {
        match self {
            Conversion::CheckingInput { input, format, quality, out_dir } => ConversionView::CheckingInput {
                input: input@,
                format: format@,
                quality: *quality,
                out_dir: opt_view(*out_dir),
            },
            Conversion::Searching { input, format, quality, search } => ConversionView::Searching {
                input: input@,
                format: format@,
                quality: *quality,
                search: search@,
            },
            Conversion::Converting { input, format, quality, output } => ConversionView::Converting {
                input: input@,
                format: format@,
                quality: *quality,
                output: output@,
            },
            Conversion::CopyingTime { input, output } => ConversionView::CopyingTime {
                input: input@,
                output: output@,
            },
            Conversion::Finished(r) => ConversionView::Finished(result_view(*r)),
        }
    }
}

/// What the caller reports back.
#[derive(Debug, PartialEq, Eq)]
pub enum ConversionEvent {
    /// The answer to a yes/no question: is it a file, does the folder or path exist.
    Answer(bool),
    /// How the platform converter did.
    Converted(Result<(), String>),
    /// The modified time was copied, or could not be; either way the conversion goes on.
    TimeCopied,
}

/// What a conversion asks of its caller.
#[derive(Debug, PartialEq, Eq)]
pub enum ConversionAction {
    /// Tell whether this path is an existing file.
    CheckIsFile(String),
    /// Tell whether this folder exists.
    CheckIsDir(String),
    /// Tell whether this path exists.
    CheckExists(String),
    /// Convert `input` into `output` in `format`, with JPEG quality `quality`.
    Convert { input: String, output: String, format: String, quality: u8 },
    /// Give `to` the modified time of `from`, if it can be read; failures are ignored.
    CopyModifiedTime { from: String, to: String },
    /// The conversion is over, with this result.
    Done(Result<String, String>),
}

pub enum ConversionActionView {
    CheckIsFile(Seq<char>),
    CheckIsDir(Seq<char>),
    CheckExists(Seq<char>),
    Convert { input: Seq<char>, output: Seq<char>, format: Seq<char>, quality: u8 },
    CopyModifiedTime { from: Seq<char>, to: Seq<char> },
    Done(Result<Seq<char>, Seq<char>>),
}

impl View for ConversionAction {
    type V = ConversionActionView;

    open spec fn view(&self) -> ConversionActionView {
        match self {
            ConversionAction::CheckIsFile(p) => ConversionActionView::CheckIsFile(p@),
            ConversionAction::CheckIsDir(p) => ConversionActionView::CheckIsDir(p@),
            ConversionAction::CheckExists(p) => ConversionActionView::CheckExists(p@),
            ConversionAction::Convert { input, output, format, quality } => ConversionActionView::Convert {
                input: input@,
                output: output@,
                format: format@,
                quality: *quality,
            },
            ConversionAction::CopyModifiedTime { from, to } => ConversionActionView::CopyModifiedTime {
                from: from@,
                to: to@,
            },
            ConversionAction::Done(r) => ConversionActionView::Done(result_view(*r)),
        }
    }
}

/// Where a conversion goes once its search is in state `s`: on to the
/// converter with the path found, to its end with the search's error, or on
/// searching.
pub open spec fn after_search(input: Seq<char>, format: Seq<char>, quality: u8, s: SearchView) -> ConversionView {
    match s {
        SearchView::Finished(Ok(p)) => ConversionView::Converting { input, format, quality, output: p },
        SearchView::Finished(Err(e)) => ConversionView::Finished(Err(e)),
        _ => ConversionView::Searching { input, format, quality, search: s },
    }
}

/// A conversion as it starts.
pub open spec fn conversion_start(
    input: Seq<char>,
    format: Seq<char>,
    quality: u8,
    out_dir: Option<Seq<char>>,
) -> ConversionView {
    ConversionView::CheckingInput { input, format, quality, out_dir }
}

/// One step of a conversion on an event. An event that does not answer what
/// was asked leaves the conversion as it is.
pub open spec fn conversion_step(c: ConversionView, ev: ConversionEvent) -> ConversionView {
    match c {
        ConversionView::CheckingInput { input, format, quality, out_dir } => match ev {
            ConversionEvent::Answer(is_file) => {
                if !is_file {
                    ConversionView::Finished(Err(file_not_found_message()))
                } else {
                    match spec_output_extension(format) {
                        Err(e) => ConversionView::Finished(Err(e)),
                        Ok(ext) => after_search(input, format, quality, search_start(input, ext, out_dir)),
                    }
                }
            },
            _ => c,
        },
        ConversionView::Searching { input, format, quality, search } => match ev {
            ConversionEvent::Answer(exists) => after_search(input, format, quality, search_step(search, exists)),
            _ => c,
        },
        ConversionView::Converting { input, format, quality, output } => match ev {
            ConversionEvent::Converted(Ok(())) => ConversionView::CopyingTime { input, output },
            ConversionEvent::Converted(Err(e)) => ConversionView::Finished(Err(e@)),
            _ => c,
        },
        ConversionView::CopyingTime { input, output } => match ev {
            ConversionEvent::TimeCopied => ConversionView::Finished(Ok(output)),
            _ => c,
        },
        ConversionView::Finished(_) => c,
    }
}

/// What a conversion asks in a given state.
pub open spec fn conversion_action(c: ConversionView) -> ConversionActionView {
    match c {
        ConversionView::CheckingInput { input, .. } => ConversionActionView::CheckIsFile(input),
        ConversionView::Searching { search, .. } => match search_action(search) {
            SearchActionView::CheckDir(d) => ConversionActionView::CheckIsDir(d),
            SearchActionView::CheckExists(p) => ConversionActionView::CheckExists(p),
            SearchActionView::Found(r) => ConversionActionView::Done(r),
        },
        ConversionView::Converting { input, format, quality, output } => ConversionActionView::Convert {
            input,
            output,
            format,
            quality,
        },
        ConversionView::CopyingTime { input, output } => ConversionActionView::CopyModifiedTime {
            from: input,
            to: output,
        },
        ConversionView::Finished(r) => ConversionActionView::Done(r),
    }
}

fn continue_after_search(input: String, format: String, quality: u8, search: OutputSearch) -> (c: Conversion)
    ensures
        c@ == after_search(input@, format@, quality, search@),
{
    match search {
        OutputSearch::Finished(Ok(p)) => Conversion::Converting { input, format, quality, output: p },
        OutputSearch::Finished(Err(e)) => Conversion::Finished(Err(e)),
        other => Conversion::Searching { input, format, quality, search: other },
    }
}

/// Starts the conversion of `input` into `format` ("jpeg" or "png") with JPEG
/// quality `quality`, written to `out_dir` or else next to the input.
pub fn convert_one(input: &str, format: &str, quality: u8, out_dir: Option<&str>) -> (c: Conversion)
    ensures
        c@ == conversion_start(input@, format@, quality, opt_str_view(out_dir)),
{
    Conversion::CheckingInput {
        input: String::from_str(input),
        format: String::from_str(format),
        quality,
        out_dir: match out_dir {
            Some(d) => Some(String::from_str(d)),
            None => None,
        },
    }
}

impl Conversion {
    /// What the conversion asks next.
    pub fn action(&self) -> (a: ConversionAction)
        ensures
            a@ == conversion_action(self@),
    {
        match self {
            Conversion::CheckingInput { input, .. } => ConversionAction::CheckIsFile(input.clone()),
            Conversion::Searching { search, .. } => match search.action() {
                SearchAction::CheckDir(d) => ConversionAction::CheckIsDir(d),
                SearchAction::CheckExists(p) => ConversionAction::CheckExists(p),
                SearchAction::Found(r) => ConversionAction::Done(r),
            },
            Conversion::Converting { input, format, quality, output } => ConversionAction::Convert {
                input: input.clone(),
                output: output.clone(),
                format: format.clone(),
                quality: *quality,
            },
            Conversion::CopyingTime { input, output } => ConversionAction::CopyModifiedTime {
                from: input.clone(),
                to: output.clone(),
            },
            Conversion::Finished(r) => ConversionAction::Done(clone_result(r)),
        }
    }

    /// Whether the conversion is over.
    pub fn is_finished(&self) -> (b: bool)
        ensures
            b == (self@ is Finished),
    {
        match self {
            Conversion::Finished(_) => true,
            _ => false,
        }
    }

    /// Goes on with the outcome of what was asked last.
    pub fn resume(&mut self, ev: ConversionEvent)
        ensures
            final(self)@ == conversion_step(old(self)@, ev),
    {
        let mut cur = Conversion::Finished(Ok(String::new()));
        std::mem::swap(&mut cur, self);
        let next = match cur {
            Conversion::CheckingInput { input, format, quality, out_dir } => match ev {
                ConversionEvent::Answer(is_file) => {
                    if !is_file {
                        Conversion::Finished(Err(String::from_str("File not found")))
                    } else {
                        match output_extension(format.as_str()) {
                            Err(e) => Conversion::Finished(Err(e)),
                            Ok(ext) => {
                                let search = match &out_dir {
                                    Some(d) => unique_output_path(input.as_str(), ext.as_str(), Some(d.as_str())),
                                    None => unique_output_path(input.as_str(), ext.as_str(), None),
                                };
                                continue_after_search(input, format, quality, search)
                            },
                        }
                    }
                },
                _ => Conversion::CheckingInput { input, format, quality, out_dir },
            },
            Conversion::Searching { input, format, quality, search } => match ev {
                ConversionEvent::Answer(exists) => {
                    let mut search = search;
                    search.resume(exists);
                    continue_after_search(input, format, quality, search)
                },
                _ => Conversion::Searching { input, format, quality, search },
            },
            Conversion::Converting { input, format, quality, output } => match ev {
                ConversionEvent::Converted(Ok(())) => Conversion::CopyingTime { input, output },
                ConversionEvent::Converted(Err(e)) => Conversion::Finished(Err(e)),
                _ => Conversion::Converting { input, format, quality, output },
            },
            Conversion::CopyingTime { input, output } => match ev {
                ConversionEvent::TimeCopied => Conversion::Finished(Ok(output)),
                _ => Conversion::CopyingTime { input, output },
            },
            Conversion::Finished(r) => Conversion::Finished(r),
        };
        *self = next;
    }
}

/// The states a conversion can reach: while it searches, its search is not
/// over and is itself in a reachable state.
pub open spec fn conversion_wf(c: ConversionView) -> bool {
    match c {
        ConversionView::Searching { search, .. } => !(search is Finished) && search_wf(search),
        _ => true,
    }
}

/// Every conversion starts in a reachable state.
pub proof fn lemma_conversion_start_wf(
    input: Seq<char>,
    format: Seq<char>,
    quality: u8,
    out_dir: Option<Seq<char>>,
)
    ensures
        conversion_wf(conversion_start(input, format, quality, out_dir)),
{
}

/// Every event keeps a conversion in a reachable state.
pub proof fn lemma_conversion_wf(c: ConversionView, ev: ConversionEvent)
    requires
        conversion_wf(c),
    ensures
        conversion_wf(conversion_step(c, ev)),
{
    match c {
        ConversionView::Searching { search, .. } => {
            if let ConversionEvent::Answer(b) = ev {
                lemma_step_wf(search, b);
            }
        },
        ConversionView::CheckingInput { input, format, out_dir, .. } => {
            if let Ok(ext) = spec_output_extension(format) {
                lemma_start_wf(input, ext, out_dir);
            }
        },
        _ => {},
    }
}

/// An input that is not an existing file ends the conversion with
/// "File not found", before anything else is looked at.
pub proof fn lemma_missing_input(input: Seq<char>, format: Seq<char>, quality: u8, out_dir: Option<Seq<char>>)
    ensures
        conversion_step(conversion_start(input, format, quality, out_dir), ConversionEvent::Answer(false))
            == ConversionView::Finished(Err(file_not_found_message())),
{
}

/// A format other than "jpeg" and "png" ends the conversion with
/// "Unsupported format: ..." before any folder or output path is looked at.
pub proof fn lemma_unsupported_format(input: Seq<char>, format: Seq<char>, quality: u8, out_dir: Option<Seq<char>>)
    requires
        format != "jpeg"@,
        format != "png"@,
    ensures
        conversion_step(conversion_start(input, format, quality, out_dir), ConversionEvent::Answer(true))
            == ConversionView::Finished(Err(unsupported_format_message(format))),
{
}

/// The converter is only ever asked to write a path that was just reported
/// not to exist: a conversion never overwrites a file.
pub proof fn lemma_converter_writes_free_path(c: ConversionView, ev: ConversionEvent, p: Seq<char>)
    requires
        conversion_wf(c),
        !(c is Converting),
        conversion_step(c, ev) matches ConversionView::Converting { output, .. } && output == p,
    ensures
        conversion_action(c) == ConversionActionView::CheckExists(p),
        ev == ConversionEvent::Answer(false),
{
    if let ConversionView::Searching { search, .. } = c {
        if let ConversionEvent::Answer(b) = ev {
            lemma_found_path_was_free(search, b, p);
        }
    }
}

/// The modified time is only copied after the converter reported success,
/// onto the path it wrote.
pub proof fn lemma_copy_follows_conversion(c: ConversionView, ev: ConversionEvent, p: Seq<char>)
    requires
        !(c is CopyingTime),
        conversion_step(c, ev) matches ConversionView::CopyingTime { output, .. } && output == p,
    ensures
        c matches ConversionView::Converting { output, .. } && output == p,
        ev matches ConversionEvent::Converted(Ok(_)),
{
}

/// A conversion succeeds only with the path whose modified time was just
/// handled, so the output path reported is the one the converter wrote.
pub proof fn lemma_success_reports_written_path(c: ConversionView, ev: ConversionEvent, p: Seq<char>)
    requires
        !(c is Finished),
        conversion_step(c, ev) == ConversionView::Finished(Ok(p)),
    ensures
        c matches ConversionView::CopyingTime { output, .. } && output == p,
        ev == ConversionEvent::TimeCopied,
{
}

/// A conversion that is over stays over, whatever is reported.
pub proof fn lemma_finished_stays(c: ConversionView, ev: ConversionEvent)
    requires
        c is Finished,
    ensures
        conversion_step(c, ev) == c,
{
}

/// A conversion after a sequence of events, one per question.
pub open spec fn conversion_run(c: ConversionView, events: Seq<ConversionEvent>) -> ConversionView
    decreases events.len(),
{
    if events.len() == 0 {
        c
    } else {
        conversion_run(conversion_step(c, events[0]), events.drop_first())
    }
}

/// A state that still holds the input, format and quality a conversion was
/// started with, wherever it holds them.
pub open spec fn carries(c: ConversionView, i: Seq<char>, f: Seq<char>, q: u8) -> bool {
    match c {
        ConversionView::CheckingInput { input, format, quality, .. } => input == i && format == f && quality == q,
        ConversionView::Searching { input, format, quality, .. } => input == i && format == f && quality == q,
        ConversionView::Converting { input, format, quality, .. } => input == i && format == f && quality == q,
        ConversionView::CopyingTime { input, .. } => input == i,
        ConversionView::Finished(_) => true,
    }
}

proof fn lemma_step_carries(c: ConversionView, ev: ConversionEvent, i: Seq<char>, f: Seq<char>, q: u8)
    requires
        carries(c, i, f, q),
    ensures
        carries(conversion_step(c, ev), i, f, q),
{
}

proof fn lemma_run_carries(c: ConversionView, events: Seq<ConversionEvent>, i: Seq<char>, f: Seq<char>, q: u8)
    requires
        carries(c, i, f, q),
    ensures
        carries(conversion_run(c, events), i, f, q),
    decreases events.len(),
{
    if events.len() > 0 {
        lemma_step_carries(c, events[0], i, f, q);
        lemma_run_carries(conversion_step(c, events[0]), events.drop_first(), i, f, q);
    }
}

/// Whatever happens on the way, whenever a conversion started on input `i`
/// in format `f` at quality `q` asks for the converter, it asks to convert `i`
/// in format `f` at quality `q`, and when it asks to copy the modified time it
/// copies it from `i`: the format and the JPEG quality chosen are never
/// changed, whether or not an output folder was given.
pub proof fn lemma_converter_gets_requested_format_and_quality(
    i: Seq<char>,
    f: Seq<char>,
    q: u8,
    d: Option<Seq<char>>,
    events: Seq<ConversionEvent>,
)
    ensures
        conversion_action(conversion_run(conversion_start(i, f, q, d), events)) matches ConversionActionView::Convert {
            input,
            format,
            quality,
            ..
        } ==> input == i && format == f && quality == q,
        conversion_action(conversion_run(conversion_start(i, f, q, d), events)) matches ConversionActionView::CopyModifiedTime {
            from,
            ..
        } ==> from == i,
{
    lemma_run_carries(conversion_start(i, f, q, d), events, i, f, q);
}

/// The extension of each supported format: "jpeg" is written as ".jpg" and
/// "png" as ".png".
pub proof fn lemma_supported_extensions()
    ensures
        spec_output_extension("jpeg"@) == Ok::<Seq<char>, Seq<char>>("jpg"@),
        spec_output_extension("png"@) == Ok::<Seq<char>, Seq<char>>("png"@),
{
    reveal_strlit("png");
    reveal_strlit("jpeg");
    assert("png"@[0] != "jpeg"@[0]);
}

/// With an output folder `d`, for every supported format, once the input is
/// known to be a file the conversion asks whether `d` is a folder, and looks
/// for the stem of the input with the format's extension there; the format
/// and quality are kept.
pub proof fn lemma_chosen_folder_is_used(i: Seq<char>, f: Seq<char>, q: u8, d: Seq<char>, ext: Seq<char>)
    requires
        spec_output_extension(f) == Ok::<Seq<char>, Seq<char>>(ext),
    ensures
        conversion_step(conversion_start(i, f, q, Some(d)), ConversionEvent::Answer(true)) == (ConversionView::Searching {
            input: i,
            format: f,
            quality: q,
            search: SearchView::CheckingDir { dir: d, stem: path_file_stem(i), ext },
        }),
        conversion_action(conversion_step(conversion_start(i, f, q, Some(d)), ConversionEvent::Answer(true)))
            == ConversionActionView::CheckIsDir(d),
{
}

}
