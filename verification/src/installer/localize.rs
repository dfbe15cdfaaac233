use vstd::prelude::*;

verus! {

/// A language that the installer can show its texts in.
#[derive(Clone, Copy, Debug, PartialEq, Eq, Structural)]
pub enum Language {
    SimplifiedChinese,
    English,
}

impl Language {
    /// The language's own name for itself.
    pub open spec fn spec_name(self) -> Seq<char> {
        match self {
            Language::SimplifiedChinese => "简体中文"@,
            Language::English => "English"@,
        }
    }

    /// The locale identifier under which the language's texts are filed.
    pub open spec fn spec_localize_key(self) -> Seq<char> {
        match self {
            Language::SimplifiedChinese => "zh-CN"@,
            Language::English => "en-US"@,
        }
    }

    /// The language's own name for itself, as shown on the button that
    /// switches languages.
    pub fn to_string(&self) -> (name: String)
        ensures
            name@ == self.spec_name(),
    {
        match self {
            Language::SimplifiedChinese => "简体中文".to_owned(),
            Language::English => "English".to_owned(),
        }
    }

    /// The locale identifier under which the language's texts are filed.
    pub fn to_localize_key(&self) -> (key: String)
        ensures
            key@ == self.spec_localize_key(),
    {
        match self {
            Language::SimplifiedChinese => "zh-CN".to_owned(),
            Language::English => "en-US".to_owned(),
        }
    }

    /// The language that the switch button changes to.
    pub fn toggled(&self) -> (other: Language)
        ensures
            other != *self,
    {
        match self {
            Language::SimplifiedChinese => Language::English,
            Language::English => Language::SimplifiedChinese,
        }
    }
}

} // verus!
