//! Which journal entries to ask for, the command line that asks for them, and what to make
//! of the answer.

use crate::error::JournalError;
use crate::batch::batch_of;
use crate::models::{LogOutput, Parser};
use crate::text::{decimal, decimal_text, split};
use vstd::prelude::*;
use vstd::utf8::{decode_utf8, valid_utf8};

verus! {

/// What a [`Journal`] or a [`JournalBuilder`] asks for, as mathematical data. A flag holds
/// the text that stands for it on the command line.
pub struct Request {
    pub service: Seq<char>,
    pub format: Seq<char>,
    pub order: Option<Seq<char>>,
    pub no_pager: Option<Seq<char>>,
    pub lines: Option<usize>,
    pub quiet: Option<Seq<char>>,
    pub since: Option<Seq<char>>,
    pub until: Option<Seq<char>>,
}

/// The view of a text that may be absent.
pub open spec fn flag_view(flag: Option<&str>) -> Option<Seq<char>> {
    match flag {
        Some(text) => Some(text@),
        None => None,
    }
}

/// A request for the entries of one service, ready to be turned into a command line.
pub struct Journal<'a> {
    service: &'a str,
    format: &'a str,
    order: Option<&'static str>,
    no_pager: Option<&'static str>,
    lines: Option<usize>,
    quiet: Option<&'static str>,
    since: Option<&'a str>,
    until: Option<&'a str>,
}

/// A request in the making.
pub struct JournalBuilder<'a> {
    service: &'a str,
    format: &'a str,
    lines: Option<usize>,
    no_pager: Option<&'static str>,
    order: Option<&'static str>,
    quiet: Option<&'static str>,
    since: Option<&'a str>,
    until: Option<&'a str>,
}

impl<'a> View for Journal<'a> {
    type V = Request;

    closed spec fn view(&self) -> Request {
        Request {
            service: self.service@,
            format: self.format@,
            order: flag_view(self.order),
            no_pager: flag_view(self.no_pager),
            lines: self.lines,
            quiet: flag_view(self.quiet),
            since: flag_view(self.since),
            until: flag_view(self.until),
        }
    }
}

impl<'a> View for JournalBuilder<'a> {
    type V = Request;

    closed spec fn view(&self) -> Request {
        Request {
            service: self.service@,
            format: self.format@,
            order: flag_view(self.order),
            no_pager: flag_view(self.no_pager),
            lines: self.lines,
            quiet: flag_view(self.quiet),
            since: flag_view(self.since),
            until: flag_view(self.until),
        }
    }
}

/// The words of an optional flag.
pub open spec fn flag_words(flag: Option<Seq<char>>) -> Seq<Seq<char>> {
    match flag {
        Some(text) => seq![text],
        None => Seq::empty(),
    }
}

/// The words of an optional setting that follows a switch.
pub open spec fn switch_words(switch: Seq<char>, value: Option<Seq<char>>) -> Seq<Seq<char>> {
    match value {
        Some(text) => seq![switch, text],
        None => Seq::empty(),
    }
}

/// The number of lines asked for, in decimal notation.
pub open spec fn lines_text(lines: Option<usize>) -> Option<Seq<char>> {
    match lines {
        Some(n) => Some(decimal(n as nat)),
        None => None,
    }
}

/// The arguments of the journal command for a request: unit and output format first, then
/// what was asked for beyond them, in a fixed order.
pub open spec fn arguments_of(request: Request) -> Seq<Seq<char>> {
    seq!["-u"@, request.service, "-o"@, request.format] + flag_words(request.no_pager)
        + flag_words(request.order) + switch_words("-n"@, lines_text(request.lines))
        + flag_words(request.quiet) + switch_words("-S"@, request.since) + switch_words(
        "-U"@,
        request.until,
    )
}

/// The views of a list of texts.
pub open spec fn words(arguments: Seq<String>) -> Seq<Seq<char>> {
    arguments.map_values(|argument: String| argument@)
}

fn push_word(arguments: &mut Vec<String>, word: &str)
    ensures
        words(final(arguments)@) == words(old(arguments)@).push(word@),
{
    arguments.push(word.to_owned());
    assert(words(arguments@) =~= words(old(arguments)@).push(word@));
}

fn push_flag(arguments: &mut Vec<String>, flag: Option<&str>)
    ensures
        words(final(arguments)@) == words(old(arguments)@) + flag_words(flag_view(flag)),
{
    match flag {
        Some(text) => {
            push_word(arguments, text);
            assert(words(arguments@) =~= words(old(arguments)@) + flag_words(flag_view(flag)));
        },
        None => {
            assert(words(arguments@) =~= words(old(arguments)@) + flag_words(flag_view(flag)));
        },
    }
}

fn push_switch(arguments: &mut Vec<String>, switch: &str, value: Option<&str>)
    ensures
        words(final(arguments)@) == words(old(arguments)@) + switch_words(
            switch@,
            flag_view(value),
        ),
{
    match value {
        Some(text) => {
            push_word(arguments, switch);
            push_word(arguments, text);
            assert(words(arguments@) =~= words(old(arguments)@) + switch_words(
                switch@,
                flag_view(value),
            ));
        },
        None => {
            assert(words(arguments@) =~= words(old(arguments)@) + switch_words(
                switch@,
                flag_view(value),
            ));
        },
    }
}

/// `String::from_utf8` of std: the text that the bytes encode, where they are valid UTF-8,
/// and nothing where they are not.
#[verifier::external_body]
fn text_from_utf8(bytes: Vec<u8>) -> (text: Option<String>)
    ensures
        text is Some <==> valid_utf8(bytes@),
        text matches Some(text) ==> text@ == decode_utf8(bytes@),
{
    String::from_utf8(bytes).ok()
}

impl<'a> Journal<'a> {
    /// Starts a request for the entries of `service`, in JSON and with nothing else set.
    pub fn with_service(service: &'a str) -> (builder: JournalBuilder<'a>)
        ensures
            builder@ == (Request {
                service: service@,
                format: "json"@,
                order: None,
                no_pager: None,
                lines: None,
                quiet: None,
                since: None,
                until: None,
            }),
    {
        JournalBuilder {
            service,
            format: "json",
            order: None,
            no_pager: None,
            lines: None,
            quiet: None,
            since: None,
            until: None,
        }
    }

    /// The arguments to run the journal command with.
    pub fn arguments(&self) -> (arguments: Vec<String>)
        ensures
            words(arguments@) == arguments_of(self@),
    {
        let mut arguments: Vec<String> = Vec::new();
        assert(words(arguments@) =~= Seq::<Seq<char>>::empty());
        push_word(&mut arguments, "-u");
        push_word(&mut arguments, self.service);
        push_word(&mut arguments, "-o");
        push_word(&mut arguments, self.format);
        assert(words(arguments@) =~= seq!["-u"@, self.service@, "-o"@, self.format@]);
        push_flag(&mut arguments, self.no_pager);
        push_flag(&mut arguments, self.order);
        match self.lines {
            Some(lines) => {
                let ghost before = words(arguments@);
                let amount = decimal_text(lines);
                push_word(&mut arguments, "-n");
                push_word(&mut arguments, amount.as_str());
                assert(words(arguments@) =~= before + switch_words(
                    "-n"@,
                    lines_text(self.lines),
                ));
            },
            None => {
                assert(words(arguments@) =~= words(arguments@) + switch_words(
                    "-n"@,
                    lines_text(self.lines),
                ));
            },
        }
        push_flag(&mut arguments, self.quiet);
        push_switch(&mut arguments, "-S", self.since);
        push_switch(&mut arguments, "-U", self.until);
        arguments
    }

    /// What the journal command's answer amounts to: an error where the command reported
    /// failure or printed something that is not UTF-8, else the batch of what it printed.
    pub fn interpret(succeeded: bool, output: Vec<u8>) -> (outcome: Result<
        LogOutput,
        JournalError,
    >)
        ensures
            !succeeded ==> outcome == Err::<LogOutput, JournalError>(JournalError::Exec),
            succeeded && !valid_utf8(output@) ==> outcome == Err::<LogOutput, JournalError>(
                JournalError::OutputParsing,
            ),
            succeeded && valid_utf8(output@) ==> outcome is Ok && outcome->Ok_0.wf()
                && outcome->Ok_0@ == batch_of(split(decode_utf8(output@), '\n')),
    {
        if !succeeded {
            return Err(JournalError::Exec);
        }
        match text_from_utf8(output) {
            Some(text) => LogOutput::parse(text.as_str()),
            None => Err(JournalError::OutputParsing),
        }
    }
}

impl<'a> JournalBuilder<'a> {
    /// Asks for the newest entries first.
    pub fn reverse(self) -> (builder: Self)
        ensures
            builder@ == (Request { order: Some("--reverse"@), ..self@ }),
    {
        let mut builder = self;
        builder.order = Some("--reverse");
        builder
    }

    /// Asks for the output as it is, not piped through a pager.
    pub fn no_pager(self) -> (builder: Self)
        ensures
            builder@ == (Request { no_pager: Some("--no-pager"@), ..self@ }),
    {
        let mut builder = self;
        builder.no_pager = Some("--no-pager");
        builder
    }

    /// Sets the output format.
    pub fn output(self, output: &'a str) -> (builder: Self)
        ensures
            builder@ == (Request { format: output@, ..self@ }),
    {
        let mut builder = self;
        builder.format = output;
        builder
    }

    /// Asks for the `lines` most recent entries only.
    pub fn lines(self, lines: usize) -> (builder: Self)
        ensures
            builder@ == (Request { lines: Some(lines), ..self@ }),
    {
        let mut builder = self;
        builder.lines = Some(lines);
        builder
    }

    /// Adds the flag `--quite`.
    pub fn quiet(self) -> (builder: Self)
        ensures
            builder@ == (Request { quiet: Some("--quite"@), ..self@ }),
    {
        let mut builder = self;
        builder.quiet = Some("--quite");
        builder
    }

    /// Asks for the entries from `since_date` on.
    pub fn since(self, since_date: &'a str) -> (builder: Self)
        ensures
            builder@ == (Request { since: Some(since_date@), ..self@ }),
    {
        let mut builder = self;
        builder.since = Some(since_date);
        builder
    }

    /// Asks for the entries up to `until_date`.
    pub fn until(self, until_date: &'a str) -> (builder: Self)
        ensures
            builder@ == (Request { until: Some(until_date@), ..self@ }),
    {
        let mut builder = self;
        builder.until = Some(until_date);
        builder
    }

    /// The finished request: everything as it was set.
    pub fn build(self) -> (journal: Journal<'a>)
        ensures
            journal@ == self@,
    {
        Journal {
            service: self.service,
            order: self.order,
            no_pager: self.no_pager,
            format: self.format,
            lines: self.lines,
            quiet: self.quiet,
            since: self.since,
            until: self.until,
        }
    }
}

} // verus!
