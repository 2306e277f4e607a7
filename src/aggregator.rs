//! Short summaries of news articles and tweets, through a few traits.

use vstd::prelude::*;

verus! {

/// Something that can be told in one line.
pub trait Summary {
    /// The line that tells it.
    spec fn summary(&self) -> Seq<char>;

    /// Tells it in one line.
    fn summarize(&self) -> (r: String)
        ensures
            r@ == self.summary(),
    ;
}

/// A news article.
pub struct NewsArticle {
    pub headline: String,
    pub location: String,
    pub author: String,
    pub content: String,
}

impl Summary for NewsArticle {
    open spec fn summary(&self) -> Seq<char> {
        self.headline@ + ", by "@ + self.author@ + " ("@ + self.location@ + ")"@
    }

    fn summarize(&self) -> (r: String) {
        let mut r = self.headline.clone();
        r.append(", by ");
        r.append(self.author.as_str());
        r.append(" (");
        r.append(self.location.as_str());
        r.append(")");
        r
    }
}

/// A short message posted by a user.
pub struct Tweet {
    pub username: String,
    pub content: String,
    pub reply: bool,
    pub retweet: bool,
}

impl Summary for Tweet {
    open spec fn summary(&self) -> Seq<char> {
        self.username@ + ": "@ + self.content@
    }

    fn summarize(&self) -> (r: String) {
        let mut r = self.username.clone();
        r.append(": ");
        r.append(self.content.as_str());
        r
    }
}

/// Something with a teaser that needs nothing of it.
pub trait Summary2 {
    /// The teaser; the same for everything unless an implementation says otherwise.
    fn summarize2(&self) -> (r: String)
        ensures
            r@ == "(Read more...)"@,
    {
        String::from_str("(Read more...)")
    }
}

impl Summary2 for NewsArticle {}

/// Something whose teaser names its author.
pub trait Summary3 {
    /// How the author is named.
    spec fn author(&self) -> Seq<char>;

    /// Names the author.
    fn summarize_author(&self) -> (r: String)
        ensures
            r@ == self.author(),
    ;

    /// A teaser that points to more from the author.
    fn summarize3(&self) -> (r: String)
        ensures
            r@ == "(Read more from "@ + self.author() + "...)"@,
    {
        let mut r = String::from_str("(Read more from ");
        let author = self.summarize_author();
        r.append(author.as_str());
        r.append("...)");
        r
    }
}

impl Summary3 for Tweet {
    open spec fn author(&self) -> Seq<char> {
        "@"@ + self.username@
    }

    fn summarize_author(&self) -> (r: String) {
        let mut r = String::from_str("@");
        r.append(self.username.as_str());
        r
    }
}

/// The line that announces a new article, with its teaser.
pub fn news_summary() -> (r: String)
    ensures
        r@ == "New article available! "@ + "(Read more...)"@,
{
    let article = NewsArticle {
        headline: String::from_str("Penguins win the Stanley Cup Championship!"),
        location: String::from_str("Pittsburgh, PA, USA"),
        author: String::from_str("Iceburgh"),
        content: String::from_str(
            "The Pittsburgh Penguins once again are the best 
            hockey team in the NHL.",
        ),
    };
    let mut r = String::from_str("New article available! ");
    let teaser = article.summarize2();
    r.append(teaser.as_str());
    r
}

/// The line that announces a new tweet, with its teaser.
pub fn tweet_summary() -> (r: String)
    ensures
        r@ == "1 new tweet: "@ + ("(Read more from "@ + ("@"@ + "horse_ebooks"@) + "...)"@),
{
    let tweet = Tweet {
        username: String::from_str("horse_ebooks"),
        content: String::from_str("of course, as you probably already know, people"),
        reply: false,
        retweet: false,
    };
    let mut r = String::from_str("1 new tweet: ");
    let teaser = tweet.summarize3();
    r.append(teaser.as_str());
    r
}

/// The line that announces `item` as breaking news.
pub fn notify(item: &impl Summary) -> (r: String)
    ensures
        r@ == "Breaking news! "@ + item.summary(),
{
    let mut r = String::from_str("Breaking news! ");
    let line = item.summarize();
    r.append(line.as_str());
    r
}

/// The line that announces `item` as breaking news.
pub fn notify2<T: Summary>(item: &T) -> (r: String)
    ensures
        r@ == "Breaking news! "@ + item.summary(),
{
    let mut r = String::from_str("Breaking news! ");
    let line = item.summarize();
    r.append(line.as_str());
    r
}

/// The summaries of two items, which may be of different kinds, on one line.
pub fn notify3(item1: &impl Summary, item2: &impl Summary) -> (r: String)
    ensures
        r@ == item1.summary() + " - "@ + item2.summary(),
{
    let mut r = item1.summarize();
    r.append(" - ");
    let second = item2.summarize();
    r.append(second.as_str());
    r
}

/// The summaries of two items of one kind on one line.
pub fn notify4<T: Summary>(item1: &T, item2: &T) -> (r: String)
    ensures
        r@ == item1.summary() + " - "@ + item2.summary(),
{
    let mut r = item1.summarize();
    r.append(" - ");
    let second = item2.summarize();
    r.append(second.as_str());
    r
}

} // verus!
