use vstd::prelude::*;

verus! {

/// Something that can be summed up in a line of text.
pub trait Summary {
    /// A short summary; without one of its own a type gets a generic
    /// invitation to read on.
    fn summarize(&self) -> (r: String)
        default_ensures
            r@ == "(Read more...)"@,
    {
        String::from_str("(Read more...)")
    }

    /// The author as a handle.
    fn summarize_author(&self) -> String;
}

/// A news article.
pub struct NewsArticle {
    pub headline: String,
    pub location: String,
    pub author: String,
    pub content: String,
}

impl Summary for NewsArticle {
    /// `headline, by author (location)`.
    fn summarize(&self) -> (r: String)
        ensures
            r@ == self.headline@ + ", by "@ + self.author@ + " ("@ + self.location@ + ")"@,
    {
        let mut s = String::from_str(self.headline.as_str());
        s.append(", by ");
        s.append(self.author.as_str());
        s.append(" (");
        s.append(self.location.as_str());
        s.append(")");
        s
    }

    /// `@author`.
    fn summarize_author(&self) -> (r: String)
        ensures
            r@ == "@"@ + self.author@,
    {
        let mut s = String::from_str("@");
        s.append(self.author.as_str());
        s
    }
}

/// A short post.
pub struct Tweet {
    pub username: String,
    pub content: String,
    pub reply: bool,
    pub retweet: bool,
}

impl Summary for Tweet {
    /// `username: content`.
    fn summarize(&self) -> (r: String)
        ensures
            r@ == self.username@ + ": "@ + self.content@,
    {
        let mut s = String::from_str(self.username.as_str());
        s.append(": ");
        s.append(self.content.as_str());
        s
    }

    /// `@username`.
    fn summarize_author(&self) -> (r: String)
        ensures
            r@ == "@"@ + self.username@,
    {
        let mut s = String::from_str("@");
        s.append(self.username.as_str());
        s
    }
}

/// A fixed post, to be used through its `Summary`.
pub fn returns_summary() -> (r: Tweet)
    ensures
        r.username@ == "horse_ebooks"@,
        r.content@ == "of course, as you probably already know, people"@,
        !r.reply,
        !r.retweet,
{
    Tweet {
        username: String::from_str("horse_ebooks"),
        content: String::from_str("of course, as you probably already know, people"),
        reply: false,
        retweet: false,
    }
}

} // verus!
