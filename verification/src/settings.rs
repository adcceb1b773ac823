//! The solver's settings file: which robot description to load, which
//! links each chain runs between, and how the solver starts.

use crate::text::optional_views_of;
use crate::text::views_of;
use crate::yaml::count_nesting_marks;
use crate::yaml::describe_scan_error;
use crate::yaml::loadable;
use crate::yaml::nesting_marks;
use crate::yaml::load_documents;
use crate::yaml::yaml_documents;
use crate::yaml::YamlNode;
use crate::yaml::MAX_NESTING_MARKS;
use crate::yaml::MAX_SETTINGS_CHARS;
use vstd::prelude::*;

verus! {

/// What a settings file says.
#[derive(Clone, Debug, PartialEq)]
pub struct Settings {
    /// File name of the robot description.
    pub urdf: String,
    /// The base link of each chain.
    pub base_links: Vec<String>,
    /// The end-effector link of each chain.
    pub ee_links: Vec<String>,
    /// The order of the joints in the configuration vector, where the file
    /// gives one.
    pub joint_ordering: Option<Vec<String>>,
    /// The starting configuration, where the file gives one: each entry as
    /// the text of the real number it was written with.
    pub starting_config: Option<Vec<String>>,
    /// Whether goals are given for end effectors only.
    pub ee_only: bool,
}

/// The content of a [`Settings`] as plain values.
pub ghost struct SettingsModel {
    pub urdf: Seq<char>,
    pub base_links: Seq<Seq<char>>,
    pub ee_links: Seq<Seq<char>>,
    pub joint_ordering: Option<Seq<Seq<char>>>,
    pub starting_config: Option<Seq<Seq<char>>>,
    pub ee_only: bool,
}

impl View for Settings {
    type V = SettingsModel;

    open spec fn view(&self) -> SettingsModel {
        SettingsModel {
            urdf: self.urdf@,
            base_links: views_of(self.base_links@),
            ee_links: views_of(self.ee_links@),
            joint_ordering: optional_views_of(self.joint_ordering),
            starting_config: optional_views_of(self.starting_config),
            ee_only: self.ee_only,
        }
    }
}

/// Why a settings file was turned down.
#[derive(Clone, Debug, PartialEq)]
pub enum SettingsError {
    /// The text is longer than the loader is trusted with.
    TooLong,
    /// The text has more characters that can open a level of nesting than
    /// the loader is trusted with.
    TooNested,
    /// The text is not well-formed YAML; the scanner's complaint is kept.
    Syntax(String),
    /// The text holds no document.
    NoDocument,
    /// `urdf` is absent or is not a text.
    BadUrdf,
    /// `base_links` is absent or is not a list of texts.
    BadBaseLinks,
    /// `ee_links` is absent or is not a list of texts.
    BadEeLinks,
    /// `base_links` and `ee_links` name different numbers of chains.
    ChainCountMismatch,
    /// `starting_config` is present and is not a list of real numbers.
    BadStartingConfig,
    /// `ee_only` is present and is not a boolean.
    BadEeOnly,
}

impl SettingsError {
    /// What went wrong, in words.
    pub open spec fn spec_message(self) -> Seq<char> {
        match self {
            SettingsError::TooLong => "the settings file is too long"@,
            SettingsError::TooNested => "the settings file has too many list and mapping marks"@,
            SettingsError::Syntax(detail) => "the settings are not well-formed YAML: "@ + detail@,
            SettingsError::NoDocument => "the settings file holds no document"@,
            SettingsError::BadUrdf => "`urdf` must name the robot description"@,
            SettingsError::BadBaseLinks => "`base_links` must be a list of link names"@,
            SettingsError::BadEeLinks => "`ee_links` must be a list of link names"@,
            SettingsError::ChainCountMismatch =>
                "`base_links` and `ee_links` must name one link each per chain"@,
            SettingsError::BadStartingConfig =>
                "`starting_config` must be a list of real numbers"@,
            SettingsError::BadEeOnly => "`ee_only` must be true or false"@,
        }
    }

    pub fn message(&self) -> (r: String)
        ensures
            r@ == self.spec_message(),
    {
        match self {
            SettingsError::TooLong => String::from_str("the settings file is too long"),
            SettingsError::TooNested => String::from_str(
                "the settings file has too many list and mapping marks",
            ),
            SettingsError::Syntax(detail) => String::from_str(
                "the settings are not well-formed YAML: ",
            ).concat(detail.as_str()),
            SettingsError::NoDocument => String::from_str("the settings file holds no document"),
            SettingsError::BadUrdf => String::from_str("`urdf` must name the robot description"),
            SettingsError::BadBaseLinks => String::from_str(
                "`base_links` must be a list of link names",
            ),
            SettingsError::BadEeLinks => String::from_str(
                "`ee_links` must be a list of link names",
            ),
            SettingsError::ChainCountMismatch => String::from_str(
                "`base_links` and `ee_links` must name one link each per chain",
            ),
            SettingsError::BadStartingConfig => String::from_str(
                "`starting_config` must be a list of real numbers",
            ),
            SettingsError::BadEeOnly => String::from_str("`ee_only` must be true or false"),
        }
    }
}

/// `node` is the text `key`.
pub open spec fn is_key(node: YamlNode, key: Seq<char>) -> bool {
    node matches YamlNode::Text(t) && t@ == key
}

/// The value of the first entry at or after `from` whose key is the text
/// `key`.
pub open spec fn find_entry(entries: Seq<(YamlNode, YamlNode)>, key: Seq<char>, from: int) -> Option<
    YamlNode,
>
    decreases entries.len() - from,
{
    if from < 0 || from >= entries.len() {
        None
    } else if is_key(entries[from].0, key) {
        Some(entries[from].1)
    } else {
        find_entry(entries, key, from + 1)
    }
}

/// What a mapping holds under the text `key`; `None` where `node` is no
/// mapping or has no such key.
pub open spec fn field(node: YamlNode, key: Seq<char>) -> Option<YamlNode> {
    match node {
        YamlNode::Hash(entries) => find_entry(entries@, key, 0),
        _ => None,
    }
}

/// Every item is a text.
pub open spec fn all_texts(items: Seq<YamlNode>) -> bool {
    forall|i: int| 0 <= i < items.len() ==> #[trigger] items[i] is Text
}

/// Every item is a real number.
pub open spec fn all_reals(items: Seq<YamlNode>) -> bool {
    forall|i: int| 0 <= i < items.len() ==> #[trigger] items[i] is Real
}

/// The text that a text node or a real-number node was written with; the
/// empty text for any other node.
pub open spec fn written(node: YamlNode) -> Seq<char> {
    match node {
        YamlNode::Text(t) => t@,
        YamlNode::Real(t) => t@,
        _ => Seq::empty(),
    }
}

/// What each item was written with, one for one.
pub open spec fn written_all(items: Seq<YamlNode>) -> Seq<Seq<char>> {
    Seq::new(items.len(), |i: int| written(items[i]))
}

/// The texts among `items`, in order; items that are no text are left out.
pub open spec fn texts_among(items: Seq<YamlNode>) -> Seq<Seq<char>>
    decreases items.len(),
{
    if items.len() == 0 {
        Seq::empty()
    } else if items.last() is Text {
        texts_among(items.drop_last()).push(written(items.last()))
    } else {
        texts_among(items.drop_last())
    }
}

/// The list of link names under `key`: `None` unless it is a list of texts.
pub open spec fn links_of(doc: YamlNode, key: Seq<char>) -> Option<Seq<Seq<char>>> {
    match field(doc, key) {
        Some(YamlNode::Array(items)) => if all_texts(items@) {
            Some(written_all(items@))
        } else {
            None
        },
        _ => None,
    }
}

/// The joint ordering: the texts of the list under `joint_ordering`, and
/// none where the key is absent, is no list, or the list is empty.
pub open spec fn joint_ordering_of(doc: YamlNode) -> Option<Seq<Seq<char>>> {
    match field(doc, "joint_ordering"@) {
        Some(YamlNode::Array(items)) => if items@.len() == 0 {
            None
        } else {
            Some(texts_among(items@))
        },
        _ => None,
    }
}

/// The starting configuration: absent where the key is, else the texts of
/// a list of real numbers; `Err` where the key holds anything else.
pub open spec fn starting_config_of(doc: YamlNode) -> Result<Option<Seq<Seq<char>>>, ()> {
    match field(doc, "starting_config"@) {
        None => Ok(None),
        Some(YamlNode::Array(items)) => if all_reals(items@) {
            Ok(Some(written_all(items@)))
        } else {
            Err(())
        },
        Some(_) => Err(()),
    }
}

/// The end-effector-only flag: `true` where the key is absent, the boolean
/// where it holds one, `None` where it holds anything else.
pub open spec fn ee_only_of(doc: YamlNode) -> Option<bool> {
    match field(doc, "ee_only"@) {
        None => Some(true),
        Some(YamlNode::Boolean(b)) => Some(b),
        Some(_) => None,
    }
}

/// The text under `urdf`; `None` where the key is absent or holds no text.
pub open spec fn urdf_of(doc: YamlNode) -> Option<Seq<char>> {
    match field(doc, "urdf"@) {
        Some(YamlNode::Text(t)) => Some(t@),
        _ => None,
    }
}

/// What a settings document says, or the first thing wrong with it. The
/// keys are examined in the order `urdf`, `base_links`, `ee_links`, the
/// number of chains, `starting_config`, `ee_only`.
pub open spec fn settings_of(doc: YamlNode) -> Result<SettingsModel, SettingsError> {
    if urdf_of(doc) is None {
        Err(SettingsError::BadUrdf)
    } else if links_of(doc, "base_links"@) is None {
        Err(SettingsError::BadBaseLinks)
    } else if links_of(doc, "ee_links"@) is None {
        Err(SettingsError::BadEeLinks)
    } else if links_of(doc, "base_links"@).unwrap().len() != links_of(
        doc,
        "ee_links"@,
    ).unwrap().len() {
        Err(SettingsError::ChainCountMismatch)
    } else if starting_config_of(doc) is Err {
        Err(SettingsError::BadStartingConfig)
    } else if ee_only_of(doc) is None {
        Err(SettingsError::BadEeOnly)
    } else {
        Ok(
            SettingsModel {
                urdf: urdf_of(doc).unwrap(),
                base_links: links_of(doc, "base_links"@).unwrap(),
                ee_links: links_of(doc, "ee_links"@).unwrap(),
                joint_ordering: joint_ordering_of(doc),
                starting_config: starting_config_of(doc).unwrap(),
                ee_only: ee_only_of(doc).unwrap(),
            },
        )
    }
}

/// What the first document of a file says; a file without a document says
/// nothing.
pub open spec fn settings_of_documents(docs: Seq<YamlNode>) -> Result<SettingsModel, SettingsError> {
    if docs.len() == 0 {
        Err(SettingsError::NoDocument)
    } else {
        settings_of(docs[0])
    }
}

impl YamlNode {
    /// What a mapping holds under the text `key`.
    pub fn field(&self, key: &str) -> (r: Option<&YamlNode>)
        ensures
            match r {
                Some(v) => field(*self, key@) == Some(*v),
                None => field(*self, key@) is None,
            },
    {
        match self {
            YamlNode::Hash(entries) => {
                let wanted = String::from_str(key);
                let mut i: usize = 0;
                while i < entries.len()
                    invariant
                        *self == YamlNode::Hash(*entries),
                        i <= entries.len(),
                        wanted@ == key@,
                        find_entry(entries@, key@, 0) == find_entry(entries@, key@, i as int),
                    decreases entries.len() - i,
                {
                    let hit = match &entries[i].0 {
                        YamlNode::Text(t) => *t == wanted,
                        _ => false,
                    };
                    if hit {
                        return Some(&entries[i].1);
                    }
                    i += 1;
                }
                None
            },
            _ => None,
        }
    }

    /// The items of a list that are all texts, as owned strings; `None`
    /// where the node is no list or an item is no text.
    pub fn as_texts(&self) -> (r: Option<Vec<String>>)
        ensures
            match r {
                Some(v) => *self matches YamlNode::Array(items) && all_texts(items@) && views_of(
                    v@,
                ) == written_all(items@),
                None => !(*self matches YamlNode::Array(items) && all_texts(items@)),
            },
    {
        match self {
            YamlNode::Array(items) => {
                let mut out: Vec<String> = Vec::new();
                let mut i: usize = 0;
                while i < items.len()
                    invariant
                        *self == YamlNode::Array(*items),
                        i <= items.len(),
                        out.len() == i,
                        forall|k: int| 0 <= k < i ==> #[trigger] items@[k] is Text,
                        forall|k: int| 0 <= k < i ==> #[trigger] out@[k]@ == written(items@[k]),
                    decreases items.len() - i,
                {
                    match &items[i] {
                        YamlNode::Text(t) => {
                            out.push(t.clone());
                        },
                        _ => {
                            return None;
                        },
                    }
                    i += 1;
                }
                Some(out)
            },
            _ => None,
        }
    }

    /// The items of a list that are all real numbers, each as the text it
    /// was written with; `None` where the node is no list or an item is no
    /// real number.
    pub fn as_reals(&self) -> (r: Option<Vec<String>>)
        ensures
            match r {
                Some(v) => *self matches YamlNode::Array(items) && all_reals(items@) && views_of(
                    v@,
                ) == written_all(items@),
                None => !(*self matches YamlNode::Array(items) && all_reals(items@)),
            },
    {
        match self {
            YamlNode::Array(items) => {
                let mut out: Vec<String> = Vec::new();
                let mut i: usize = 0;
                while i < items.len()
                    invariant
                        *self == YamlNode::Array(*items),
                        i <= items.len(),
                        out.len() == i,
                        forall|k: int| 0 <= k < i ==> #[trigger] items@[k] is Real,
                        forall|k: int| 0 <= k < i ==> #[trigger] out@[k]@ == written(items@[k]),
                    decreases items.len() - i,
                {
                    match &items[i] {
                        YamlNode::Real(t) => {
                            out.push(t.clone());
                        },
                        _ => {
                            return None;
                        },
                    }
                    i += 1;
                }
                Some(out)
            },
            _ => None,
        }
    }

    /// The texts among the items of a list, in order; `None` where the
    /// node is no list.
    pub fn texts_among(&self) -> (r: Option<Vec<String>>)
        ensures
            match r {
                Some(v) => *self matches YamlNode::Array(items) && views_of(v@) == texts_among(
                    items@,
                ),
                None => !(*self is Array),
            },
    {
        match self {
            YamlNode::Array(items) => {
                let mut out: Vec<String> = Vec::new();
                let mut i: usize = 0;
                while i < items.len()
                    invariant
                        i <= items.len(),
                        views_of(out@) == texts_among(items@.take(i as int)),
                    decreases items.len() - i,
                {
                    proof {
                        assert(items@.take(i + 1).drop_last() == items@.take(i as int));
                    }
                    match &items[i] {
                        YamlNode::Text(t) => {
                            out.push(t.clone());
                        },
                        _ => {},
                    }
                    i += 1;
                }
                proof {
                    assert(items@.take(items.len() as int) == items@);
                }
                Some(out)
            },
            _ => None,
        }
    }
}

impl Settings {
    /// Reads the settings out of a loaded document.
    pub fn from_document(doc: &YamlNode) -> (r: Result<Settings, SettingsError>)
        ensures
            match r {
                Ok(s) => settings_of(*doc) == Ok::<SettingsModel, SettingsError>(s@),
                Err(e) => settings_of(*doc) == Err::<SettingsModel, SettingsError>(e),
            },
    {
        let urdf = match doc.field("urdf") {
            Some(YamlNode::Text(t)) => t.clone(),
            _ => {
                return Err(SettingsError::BadUrdf);
            },
        };
        let base_links = match doc.field("base_links") {
            Some(node) => match node.as_texts() {
                Some(v) => v,
                None => {
                    return Err(SettingsError::BadBaseLinks);
                },
            },
            None => {
                return Err(SettingsError::BadBaseLinks);
            },
        };
        let ee_links = match doc.field("ee_links") {
            Some(node) => match node.as_texts() {
                Some(v) => v,
                None => {
                    return Err(SettingsError::BadEeLinks);
                },
            },
            None => {
                return Err(SettingsError::BadEeLinks);
            },
        };
        if base_links.len() != ee_links.len() {
            return Err(SettingsError::ChainCountMismatch);
        }
        let joint_ordering = match doc.field("joint_ordering") {
            Some(node) => match node.texts_among() {
                Some(v) => {
                    let empty = match node {
                        YamlNode::Array(items) => items.len() == 0,
                        _ => true,
                    };
                    if empty {
                        None
                    } else {
                        Some(v)
                    }
                },
                None => None,
            },
            None => None,
        };
        let starting_config = match doc.field("starting_config") {
            Some(node) => match node.as_reals() {
                Some(v) => Some(v),
                None => {
                    return Err(SettingsError::BadStartingConfig);
                },
            },
            None => None,
        };
        let ee_only = match doc.field("ee_only") {
            Some(YamlNode::Boolean(b)) => *b,
            Some(_) => {
                return Err(SettingsError::BadEeOnly);
            },
            None => true,
        };
        let settings = Settings {
            urdf,
            base_links,
            ee_links,
            joint_ordering,
            starting_config,
            ee_only,
        };
        Ok(settings)
    }

    /// Reads the settings out of the first document of a loaded file.
    pub fn from_documents(docs: &Vec<YamlNode>) -> (r: Result<Settings, SettingsError>)
        ensures
            match r {
                Ok(s) => settings_of_documents(docs@) == Ok::<SettingsModel, SettingsError>(s@),
                Err(e) => settings_of_documents(docs@) == Err::<SettingsModel, SettingsError>(e),
            },
    {
        if docs.len() == 0 {
            Err(SettingsError::NoDocument)
        } else {
            Settings::from_document(&docs[0])
        }
    }

    /// Reads the settings out of the text of a settings file.
    ///
    /// A text of more than [`MAX_SETTINGS_CHARS`] characters is `TooLong`,
    /// and a shorter one with more than [`MAX_NESTING_MARKS`] characters
    /// that can open a level of nesting is `TooNested`; neither is handed
    /// to the YAML loader. Where the loader turns a text down the error is
    /// `Syntax`; otherwise the result is what [`settings_of_documents`]
    /// says of the documents it loaded.
    pub fn parse(text: &str) -> (r: Result<Settings, SettingsError>)
        ensures
            text@.len() > MAX_SETTINGS_CHARS ==> r == Err::<Settings, SettingsError>(
                SettingsError::TooLong,
            ),
            text@.len() <= MAX_SETTINGS_CHARS && nesting_marks(text@) > MAX_NESTING_MARKS ==> r
                == Err::<Settings, SettingsError>(SettingsError::TooNested),
            loadable(text@) ==> match yaml_documents(text@) {
                None => r matches Err(SettingsError::Syntax(_)),
                Some(docs) => match r {
                    Ok(s) => settings_of_documents(docs) == Ok::<SettingsModel, SettingsError>(s@),
                    Err(e) => settings_of_documents(docs) == Err::<SettingsModel, SettingsError>(
                        e,
                    ),
                },
            },
    {
        let len = text.unicode_len();
        if len > MAX_SETTINGS_CHARS {
            return Err(SettingsError::TooLong);
        }
        if count_nesting_marks(text) > MAX_NESTING_MARKS {
            return Err(SettingsError::TooNested);
        }
        match load_documents(text) {
            Ok(docs) => Settings::from_documents(&docs),
            Err(e) => Err(SettingsError::Syntax(describe_scan_error(&e))),
        }
    }
}

} // verus!
