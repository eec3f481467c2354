//! The languages the API can answer in.

use vstd::prelude::*;
use vstd::string::StringExecFns;

verus! {

/// All possible api languages. The default language is `En`.
#[derive(Copy, Clone, Debug, PartialEq, Eq, Hash, Structural)]
pub enum Language {
    En,
    Es,
    De,
    Fr,
    Zh,
}

impl Language {
    /// The tag that names the language in a query.
    pub open spec fn tag(self) -> Seq<char> {
        match self {
            Language::En => "en"@,
            Language::Es => "es"@,
            Language::De => "de"@,
            Language::Fr => "fr"@,
            Language::Zh => "zh"@,
        }
    }

    /// The tag that names the language in a query.
    pub fn code(&self) -> (r: &'static str)
        ensures
            r@ == self.tag(),
    {
        match self {
            Language::En => "en",
            Language::Es => "es",
            Language::De => "de",
            Language::Fr => "fr",
            Language::Zh => "zh",
        }
    }

    /// The language as text: its tag.
    pub fn to_text(&self) -> (r: String)
        ensures
            r@ == self.tag(),
    {
        String::from_str(self.code())
    }
}

impl Default for Language {
    fn default() -> (r: Self)
        ensures
            r == Language::En,
    {
        Language::En
    }
}

/// Every tag is two lower-case letters, and no two languages share one.
pub proof fn lemma_tags_distinct(a: Language, b: Language)
    ensures
        a.tag().len() == 2,
        a.tag() == b.tag() ==> a == b,
{
    reveal_strlit("en");
    reveal_strlit("es");
    reveal_strlit("de");
    reveal_strlit("fr");
    reveal_strlit("zh");
    if a != b && a.tag() == b.tag() {
        assert(a.tag()[0] == b.tag()[0]);
        assert(a.tag()[1] == b.tag()[1]);
    }
}

} // verus!
