//! One-line summaries of posts, by way of a shared trait.

use vstd::prelude::*;
use vstd::string::*;

verus! {

/// Something that can be summed up in a line.
pub trait Summary {
    /// The line that stands for `self`.
    spec fn summary(&self) -> Seq<char>;

    /// Writes the summary out.
    fn summarize(&self) -> (line: String)
        ensures
            line@ == self.summary(),
    ;
}

/// An article.
pub struct Post {
    pub title: String,
    pub author: String,
    pub content: String,
}

impl Summary for Post {
    /// The title and the author; the content is left out.
    open spec fn summary(&self) -> Seq<char> {
        "文章"@ + self.title@ + ", 作者是"@ + self.author@
    }

    fn summarize(&self) -> (line: String) {
        let line = String::from_str("文章");
        let line = line.concat(self.title.as_str());
        let line = line.concat(", 作者是");
        line.concat(self.author.as_str())
    }
}

/// A short public message.
pub struct Weibo {
    pub username: String,
    pub content: String,
}

impl Summary for Weibo {
    /// Who posted, and what.
    open spec fn summary(&self) -> Seq<char> {
        self.username@ + "发表了微博"@ + self.content@
    }

    fn summarize(&self) -> (line: String) {
        let line = self.username.clone();
        let line = line.concat("发表了微博");
        line.concat(self.content.as_str())
    }
}

/// Something with a summary that need not be spelled out.
pub trait Summary1 {
    /// A plain invitation to read more. An implementor that writes this method anew has to
    /// produce the same line.
    fn summarize(&self) -> (line: String)
        ensures
            line@ == "(Read more...)"@,
    {
        String::from_str("(Read more...)")
    }
}

/// A messenger account that is content with the plain summary.
pub struct QQ {}

impl Summary1 for QQ {

}

/// Something summed up by naming its author.
pub trait Summary2 {
    /// The author's name.
    spec fn author(&self) -> Seq<char>;

    /// Writes the author's name out.
    fn summarize_author(&self) -> (name: String)
        ensures
            name@ == self.author(),
    ;

    /// An invitation to read more from the author. An implementor that writes this method
    /// anew has to produce the same line.
    fn summarize(&self) -> (line: String)
        ensures
            line@ == "(Read more from "@ + self.author() + "...)"@,
    {
        let line = String::from_str("(Read more from ");
        let line = line.concat(self.summarize_author().as_str());
        line.concat("...)")
    }
}

/// A messenger account, whose author is always the same.
pub struct QQ1 {}

impl Summary2 for QQ1 {
    open spec fn author(&self) -> Seq<char> {
        "summarize_author"@
    }

    fn summarize_author(&self) -> (name: String) {
        String::from_str("summarize_author")
    }
}

} // verus!
