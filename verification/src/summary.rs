//! Summaries of publications, and announcements built from them.

use vstd::prelude::*;
use vstd::string::StringExecFns;

verus! {

/// Something that can be summed up in one line.
pub trait Summary {
    /// The summary line.
    spec fn summary(&self) -> Seq<char>;

    /// Writes the summary line.
    fn summarize(&self) -> (text: String)
        ensures
            text@ == self.summary(),
    ;
}

/// A headline followed by what it stands above, separated by a colon.
pub open spec fn headed(head: Seq<char>, body: Seq<char>) -> Seq<char> {
    head + ": "@ + body
}

/// Writes `head`, a colon and a space, then `body`.
fn headed_text(head: &str, body: &str) -> (text: String)
    ensures
        text@ == headed(head@, body@),
{
    let mut text = head.to_owned();
    text.append(": ");
    text.append(body);
    text
}

/// A published article.
#[derive(Clone)]
pub struct Article {
    pub title: String,
    pub content: String,
}

impl Summary for Article {
    open spec fn summary(&self) -> Seq<char> {
        headed(self.title@, self.content@)
    }

    fn summarize(&self) -> (text: String) {
        headed_text(self.title.as_str(), self.content.as_str())
    }
}

/// A short post by a named user.
#[derive(Clone)]
pub struct Tweet {
    pub username: String,
    pub content: String,
}

impl Summary for Tweet {
    open spec fn summary(&self) -> Seq<char> {
        headed(self.username@, self.content@)
    }

    fn summarize(&self) -> (text: String) {
        headed_text(self.username.as_str(), self.content.as_str())
    }
}

/// A summary that is derived from the author alone unless an implementor
/// decides otherwise.
pub trait Summary2 {
    /// How the author is referred to. It is empty unless the
    /// implementation states otherwise, so an implementation written
    /// without proofs needs to supply `summarize_author` only.
    open spec fn author(&self) -> Seq<char> {
        Seq::empty()
    }

    /// Writes how the author is referred to.
    fn summarize_author(&self) -> (text: String)
        ensures
            text@ == self.author(),
    ;

    /// Writes the summary line. Unless an implementation replaces it, the
    /// line is an invitation to read more from the author.
    fn summarize(&self) -> (text: String)
        default_ensures
            text@ == "(Read more from "@ + self.author() + "...)"@,
    {
        let author = self.summarize_author();
        let mut text = "(Read more from ".to_owned();
        text.append(author.as_str());
        text.append("...)");
        text
    }
}

/// A short post whose summary only names its author.
pub struct Tweet2 {
    pub username: String,
    pub content: String,
}

impl Summary2 for Tweet2 {
    open spec fn author(&self) -> Seq<char> {
        "@"@ + self.username@
    }

    fn summarize_author(&self) -> (text: String) {
        let mut text = "@".to_owned();
        text.append(self.username.as_str());
        text
    }
}

/// Something that has a display line of its own.
pub trait Display {
    /// The display line.
    spec fn displayed(&self) -> Seq<char>;

    /// Writes the display line.
    fn display(&self) -> (text: String)
        ensures
            text@ == self.displayed(),
    ;
}

impl Display for Article {
    open spec fn displayed(&self) -> Seq<char> {
        "Article: "@ + self.title@
    }

    fn display(&self) -> (text: String) {
        let mut text = "Article: ".to_owned();
        text.append(self.title.as_str());
        text
    }
}

/// The announcement of one summary.
pub open spec fn news(summary: Seq<char>) -> Seq<char> {
    "Breaking news! "@ + summary
}

/// The announcement of a summary together with a display line.
pub open spec fn news_pair(summary: Seq<char>, displayed: Seq<char>) -> Seq<char> {
    "Breaking news! "@ + summary + " and "@ + displayed
}

/// Writes the announcement of a summary together with a display line.
fn news_pair_text(summary: &str, displayed: &str) -> (line: String)
    ensures
        line@ == news_pair(summary@, displayed@),
{
    let mut line = "Breaking news! ".to_owned();
    line.append(summary);
    line.append(" and ");
    line.append(displayed);
    line
}

/// Announces the summary of `item`.
pub fn notify(item: &impl Summary) -> (line: String)
    ensures
        line@ == news(item.summary()),
{
    let summary = item.summarize();
    let mut line = "Breaking news! ".to_owned();
    line.append(summary.as_str());
    line
}

/// Announces the summary of `item1` together with the display line of
/// `item2`.
pub fn notify_multiple_arguments(item1: &impl Summary, item2: &impl Display) -> (line: String)
    ensures
        line@ == news_pair(item1.summary(), item2.displayed()),
{
    let summary = item1.summarize();
    let displayed = item2.display();
    news_pair_text(summary.as_str(), displayed.as_str())
}

/// Announces the summary of `item` together with its own display line.
pub fn notify_multiple_traits_2(item: &(impl Summary + Display)) -> (line: String)
    ensures
        line@ == news_pair(item.summary(), item.displayed()),
{
    let summary = item.summarize();
    let displayed = item.display();
    news_pair_text(summary.as_str(), displayed.as_str())
}

/// Describes `t` by its display line and `u` by its summary.
pub fn some_function<T, U>(t: &T, u: &U) -> (line: String)
    where
        T: Display + Clone,
        U: Clone + Summary,
    ensures
        line@ == "t: "@ + t.displayed() + " and u: "@ + u.summary(),
{
    let displayed = t.display();
    let summary = u.summarize();
    let mut line = "t: ".to_owned();
    line.append(displayed.as_str());
    line.append(" and u: ");
    line.append(summary.as_str());
    line
}

/// Hands out a ready-made item of which callers know only that it can be
/// summarized.
pub fn returns_summarize() -> (item: impl Summary)
    ensures
        item.summary() == headed(
            "horse_ebooks"@,
            "of course, as you probably already know, people"@,
        ),
{
    Tweet {
        username: "horse_ebooks".to_owned(),
        content: "of course, as you probably already know, people".to_owned(),
    }
}

} // verus!
