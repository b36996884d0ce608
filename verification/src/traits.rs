//! Summaries of news articles and tweets, behind traits that other types
//! can take up too.

use std::fmt::{Debug, Display};
use vstd::prelude::*;
use vstd::std_specs::cmp::{PartialOrdIs, PartialOrdSpec};

verus! {

/// Something that can be summed up in a line.
pub trait Summary {
    /// The line that sums it up.
    fn summarize(&self) -> String;
}

/// A news article.
pub struct NewsArticle {
    pub headline: String,
    pub location: String,
    pub author: String,
    pub content: String,
}

impl Summary for NewsArticle {
    /// The headline, then who wrote the article and where.
    fn summarize(&self) -> (summary: String)
        ensures
            summary@ == self.headline@ + ". by "@ + self.author@ + " ("@ + self.location@ + ")"@,
    {
        let mut summary = self.headline.clone();
        summary.append(". by ");
        summary.append(self.author.as_str());
        summary.append(" (");
        summary.append(self.location.as_str());
        summary.append(")");
        summary
    }
}

/// A tweet.
pub struct Tweet {
    pub username: String,
    pub content: String,
    pub reply: bool,
    pub retweet: bool,
}

impl Summary for Tweet {
    /// Who tweeted, a colon, and what.
    fn summarize(&self) -> (summary: String)
        ensures
            summary@ == self.username@ + ":"@ + self.content@,
    {
        let mut summary = self.username.clone();
        summary.append(":");
        summary.append(self.content.as_str());
        summary
    }
}

/// Something that can be summed up by naming its author.
pub trait DefaultSummary {
    /// The author, as the summary is to name them.
    fn summarize_author(&self) -> String;

    /// An invitation to read more, followed by what
    /// [`summarize_author`](DefaultSummary::summarize_author) gives.
    fn summarize_with_default(&self) -> (summary: String)
        ensures
            exists|author: String|
                call_ensures(Self::summarize_author, (self,), author) && summary@
                    == "(Read more...), "@ + author@,
    {
        let author = self.summarize_author();
        let mut summary = String::from_str("(Read more...), ");
        summary.append(author.as_str());
        summary
    }
}

impl DefaultSummary for Tweet {
    /// The user's name behind an at sign.
    fn summarize_author(&self) -> (author: String)
        ensures
            author@ == "@"@ + self.username@,
    {
        let mut author = String::from_str("@");
        author.append(self.username.as_str());
        author
    }
}

/// Sums up a tweet.
pub fn use_default_trait() {
    let tweet = Tweet {
        username: String::from_str("horse_ebooks"),
        content: String::from_str("this is a tweet about horses"),
        reply: false,
        retweet: false,
    };
    let summary = tweet.summarize();
    assert(summary@ == "horse_ebooks"@ + ":"@ + "this is a tweet about horses"@);
}

/// Takes two items of one type that can be summed up.
pub fn notify_complex_sig<T: Summary>(item1: &T, item2: &T) {
}

/// Takes an item that can be summed up and shown.
pub fn notify_with_plus_sig(item: &(impl Summary + Display)) {
}

/// Takes an item that can be summed up and shown, the bounds written on a
/// type parameter.
pub fn generic_alternative_to_above<T: Summary + Display>(item: &T) {
}

/// Takes two items with two bounds each.
pub fn some_function<T: Display + Clone, U: Clone + Debug>(t: &T, u: &U) {
}

/// Takes two items with two bounds each, the bounds written behind `where`.
pub fn some_function_with_where<T, U>(t: &T, u: &U) where T: Display + Clone, U: Clone + Debug {
}

/// Something that can be summed up, without saying what it is: a tweet.
pub fn returns_summarize() -> (tweet: impl Summary) {
    Tweet {
        username: String::from_str("horse_ebooks"),
        content: String::from_str("this is a tweet about horses"),
        reply: false,
        retweet: false,
    }
}

/// Two values of one type.
pub struct Pair<T> {
    pub x: T,
    pub y: T,
}

impl<T> Pair<T> {
    /// The pair of `x` and `y`.
    pub fn new(x: T, y: T) -> (pair: Self)
        ensures
            pair.x == x,
            pair.y == y,
    {
        Self { x, y }
    }
}

impl<T: PartialOrd> Pair<T> {
    /// Whether the first member is the largest: it is greater than the
    /// second or equal to it.
    pub fn x_is_largest(&self) -> (first: bool)
        ensures
            T::obeys_partial_cmp_spec() ==> first == self.x.is_ge(&self.y),
    {
        self.x >= self.y
    }
}

} // verus!
