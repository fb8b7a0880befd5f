//! What the chat front end decides from the text of a message: which
//! command it is, which day it asks for, and what is said in answer.

use vstd::prelude::*;
use vstd::string::*;
use crate::date::{valid_ymd, CalendarDate};
use crate::extract::starts_with;

verus! {

/// Why the text behind a command names no day.
#[derive(Clone, Debug)]
pub enum DateError {
    /// A field is not a number; the text says why.
    Number(String),
    /// The numbers name no day that exists.
    Invalid,
}

/// What a message asks of the comic command.
#[derive(Clone, Debug)]
pub enum Request {
    /// The message is not for this command, or a bot wrote it.
    Ignore,
    /// The comic of the current day.
    Today,
    /// The comic of the given day.
    On(CalendarDate),
    /// A day was given and could not be read.
    BadDate(DateError),
}

/// The command that answers a ping.
pub struct Pinger;

/// The command that shows the comic of a day.
pub struct Garfield;

/// The command that lists the commands.
pub struct Help;

/// An ASCII capital as its small letter; any other character as it is.
pub open spec fn lower(c: char) -> char {
    if 'A' <= c && c <= 'Z' {
        ((c as u8) + 32) as char
    } else {
        c
    }
}

/// The text with each ASCII capital made small.
pub open spec fn lowercase(text: Seq<char>) -> Seq<char> {
    text.map_values(|c: char| lower(c))
}

/// The characters of `text` from position `skip` on, `take` of them at
/// most; fewer, or none, where the text ends before.
pub open spec fn field(text: Seq<char>, skip: int, take: int) -> Seq<char> {
    let from = if skip <= text.len() { skip } else { text.len() as int };
    let to = if skip + take <= text.len() { skip + take } else { text.len() as int };
    text.subrange(from, to)
}

/// What `str::parse::<i32>` makes of `text`: the number, or the text of
/// the error.
pub uninterp spec fn parsed_i32(text: Seq<char>) -> Result<i32, Seq<char>>;

/// What `str::parse::<u32>` makes of `text`: the number, or the text of
/// the error.
pub uninterp spec fn parsed_u32(text: Seq<char>) -> Result<u32, Seq<char>>;

/// A parsed number with the error's text as a sequence of characters.
pub open spec fn number_view<T>(number: Result<T, String>) -> Result<T, Seq<char>> {
    match number {
        Ok(n) => Ok(n),
        Err(text) => Err(text@),
    }
}

/// Lowers a text with `str::to_ascii_lowercase`.
///
/// Trusted: as std documents, the ASCII capitals become their small letters
/// and every other character stays.
#[verifier::external_body]
fn ascii_lowercase(text: &str) -> (lowered: String)
    ensures
        lowered@ == lowercase(text@),
{
    text.to_ascii_lowercase()
}

/// Reads a signed number with `str::parse`.
///
/// Trusted: number and error depend on the text alone; they are named by
/// `parsed_i32`.
#[verifier::external_body]
fn parse_i32(text: &str) -> (number: Result<i32, String>)
    ensures
        number_view(number) == parsed_i32(text@),
{
    text.parse::<i32>().map_err(|e| e.to_string())
}

/// Reads an unsigned number with `str::parse`.
///
/// Trusted: number and error depend on the text alone; they are named by
/// `parsed_u32`.
#[verifier::external_body]
fn parse_u32(text: &str) -> (number: Result<u32, String>)
    ensures
        number_view(number) == parsed_u32(text@),
{
    text.parse::<u32>().map_err(|e| e.to_string())
}

/// The day that three parsed fields name: the first field that is no
/// number decides the error, year before month before day; numbers that
/// name no day are invalid.
pub open spec fn fields_date(
    year: Result<i32, Seq<char>>,
    month: Result<u32, Seq<char>>,
    day: Result<u32, Seq<char>>,
) -> Result<(i32, u32, u32), Option<Seq<char>>> {
    match (year, month, day) {
        (Err(text), _, _) => Err(Some(text)),
        (Ok(_), Err(text), _) => Err(Some(text)),
        (Ok(_), Ok(_), Err(text)) => Err(Some(text)),
        (Ok(y), Ok(m), Ok(d)) => if valid_ymd(y as int, m as int, d as int) {
            Ok((y, m, d))
        } else {
            Err(None)
        },
    }
}

/// A day or an error as plain values: the day's year, month and day, or
/// the text of the number's error, `None` for numbers that name no day.
pub open spec fn date_view(date: Result<CalendarDate, DateError>) -> Result<
    (i32, u32, u32),
    Option<Seq<char>>,
> {
    match date {
        Ok(d) => Ok((d.spec_year(), d.spec_month(), d.spec_day())),
        Err(DateError::Number(text)) => Err(Some(text@)),
        Err(DateError::Invalid) => Err(None),
    }
}

/// The day that the text of a message names: behind the command's ten
/// characters, four of the year, a separator, two of the month, a
/// separator, two of the day.
pub open spec fn message_date(content: Seq<char>) -> Result<(i32, u32, u32), Option<Seq<char>>> {
    fields_date(
        parsed_i32(field(content, 10, 4)),
        parsed_u32(field(content, 15, 2)),
        parsed_u32(field(content, 18, 2)),
    )
}

/// Whether two texts are the same.
pub fn same_text(a: &str, b: &str) -> (same: bool)
    ensures
        same == (a@ == b@),
{
    let same = a.unicode_len() == b.unicode_len() && starts_with(a, b);
    proof {
        if same {
            assert(a@.subrange(0, b@.len() as int) =~= a@);
        }
        if a@ == b@ {
            assert(b@ =~= a@.subrange(0, b@.len() as int));
        }
    }
    same
}

/// Cuts the characters of `text` from position `skip` on, `take` at most.
pub fn cut_field(text: &str, skip: usize, take: usize) -> (part: &str)
    requires
        skip + take <= usize::MAX,
    ensures
        part@ == field(text@, skip as int, take as int),
{
    let n = text.unicode_len();
    let from = if skip <= n { skip } else { n };
    let to = if skip + take <= n { skip + take } else { n };
    text.substring_char(from, to)
}

/// Makes the day of three parsed fields, or says what is wrong with the
/// first field that is wrong.
pub fn date_from_fields(
    year: Result<i32, String>,
    month: Result<u32, String>,
    day: Result<u32, String>,
) -> (date: Result<CalendarDate, DateError>)
    ensures
        date_view(date) == fields_date(number_view(year), number_view(month), number_view(day)),
        date matches Ok(d) ==> d.wf(),
{
    let y = match year {
        Ok(y) => y,
        Err(text) => return Err(DateError::Number(text)),
    };
    let m = match month {
        Ok(m) => m,
        Err(text) => return Err(DateError::Number(text)),
    };
    let d = match day {
        Ok(d) => d,
        Err(text) => return Err(DateError::Number(text)),
    };
    match CalendarDate::from_ymd_opt(y, m, d) {
        Some(date) => Ok(date),
        None => Err(DateError::Invalid),
    }
}

/// Reads the day that the text of a message names.
pub fn parse_date(content: &str) -> (date: Result<CalendarDate, DateError>)
    ensures
        date_view(date) == message_date(content@),
        date matches Ok(d) ==> d.wf(),
{
    let year = parse_i32(cut_field(content, 10, 4));
    let month = parse_u32(cut_field(content, 15, 2));
    let day = parse_u32(cut_field(content, 18, 2));
    date_from_fields(year, month, day)
}

impl DateError {
    /// The error in words.
    pub open spec fn spec_message(&self) -> Seq<char> {
        match self {
            DateError::Number(text) => text@,
            DateError::Invalid => "Invalid date"@,
        }
    }

    /// The error in words.
    pub fn message(&self) -> (text: String)
        ensures
            text@ == self.spec_message(),
    {
        match self {
            DateError::Number(text) => text.clone(),
            DateError::Invalid => String::from_str("Invalid date"),
        }
    }
}

impl Pinger {
    /// The answer to a message: "Pong!" to a ping, in any mix of ASCII
    /// capitals and small letters, that no bot wrote; none to anything else.
    pub fn reply(content: &str, from_bot: bool) -> (answer: Option<&'static str>)
        ensures
            answer is Some <==> lowercase(content@) == "!ping"@ && !from_bot,
            answer matches Some(text) ==> text@ == "Pong!"@,
    {
        let lowered = ascii_lowercase(content);
        if same_text(lowered.as_str(), "!ping") && !from_bot {
            Some("Pong!")
        } else {
            None
        }
    }
}

impl Help {
    /// The text that lists the commands.
    pub open spec fn spec_text() -> Seq<char> {
        "Garfield help:\n\nSee '/help' for new slash commands!\n\n!ping - The bot will respond with a pong\n!garfield - The current garfield commic for today\n!garfield 2024-02-01 - The garfield strip at the given date\n!help - This message"@
    }

    /// The answer to a message: the list of commands to a call for help, in
    /// any mix of ASCII capitals and small letters, that no bot wrote; none
    /// to anything else.
    pub fn reply(content: &str, from_bot: bool) -> (answer: Option<&'static str>)
        ensures
            answer is Some <==> lowercase(content@) == "!help"@ && !from_bot,
            answer matches Some(text) ==> text@ == Help::spec_text(),
    {
        let lowered = ascii_lowercase(content);
        if same_text(lowered.as_str(), "!help") && !from_bot {
            Some(
                "Garfield help:\n\nSee '/help' for new slash commands!\n\n!ping - The bot will respond with a pong\n!garfield - The current garfield commic for today\n!garfield 2024-02-01 - The garfield strip at the given date\n!help - This message",
            )
        } else {
            None
        }
    }
}

/// A request with the day or the error as plain values.
pub enum RequestView {
    Ignore,
    Today,
    Dated(Result<(i32, u32, u32), Option<Seq<char>>>),
}

/// A request with the day or the error as plain values.
pub open spec fn request_view(request: Request) -> RequestView {
    match request {
        Request::Ignore => RequestView::Ignore,
        Request::Today => RequestView::Today,
        Request::On(date) => RequestView::Dated(date_view(Ok(date))),
        Request::BadDate(error) => RequestView::Dated(date_view(Err(error))),
    }
}

impl Garfield {
    /// What a message asks for: nothing, where it does not begin with the
    /// command (in any mix of ASCII capitals and small letters) or a bot
    /// wrote it; the current day's comic, where it is the bare command; else
    /// the comic of the day that it names.
    pub open spec fn spec_request(content: Seq<char>, from_bot: bool) -> RequestView {
        if !"!garfield"@.is_prefix_of(lowercase(content)) || from_bot {
            RequestView::Ignore
        } else if content == "!garfield"@ {
            RequestView::Today
        } else {
            RequestView::Dated(message_date(content))
        }
    }

    /// Decides what a message asks for.
    pub fn request(content: &str, from_bot: bool) -> (request: Request)
        ensures
            request_view(request) == Garfield::spec_request(content@, from_bot),
            request matches Request::On(date) ==> date.wf(),
    {
        let lowered = ascii_lowercase(content);
        if !starts_with(lowered.as_str(), "!garfield") || from_bot {
            Request::Ignore
        } else if same_text(content, "!garfield") {
            Request::Today
        } else {
            match parse_date(content) {
                Ok(date) => Request::On(date),
                Err(error) => Request::BadDate(error),
            }
        }
    }

    /// The line that goes before the comic: the day in words.
    pub fn caption(date: &CalendarDate) -> (text: String)
        requires
            date.wf(),
        ensures
            text@ == "Garfield: "@ + date.text("%B %d, %Y"@),
    {
        let mut text = String::from_str("Garfield: ");
        text.append(date.format("%B %d, %Y").as_str());
        text
    }

    /// The answer to a day that could not be read.
    pub fn bad_date_text(error: &DateError) -> (text: String)
        ensures
            text@ == "Unable to parse date: '"@ + error.spec_message() + "'"@,
    {
        let mut text = String::from_str("Unable to parse date: '");
        text.append(error.message().as_str());
        text.append("'");
        text
    }

    /// The answer where no source gave the comic.
    pub fn unavailable_text() -> (text: &'static str)
        ensures
            text@ == "Commic Error: comic unavailable"@,
    {
        "Commic Error: comic unavailable"
    }
}

} // verus!
