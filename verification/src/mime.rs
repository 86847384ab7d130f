//! MIME-typed content offered by a kernel message, and the policy that picks
//! the best available representation out of the competing encodings.

use vstd::prelude::*;

verus! {

/// A MIME-type identifier. The aggregator treats markdown-like text and plain
/// text specially; every other identifier is carried through verbatim.
pub enum MimeType {
    Markdown,
    Plain,
    Other(String),
}

/// Mathematical model of a [`MimeType`].
pub enum MimeTypeModel {
    Markdown,
    Plain,
    Other(Seq<char>),
}

impl View for MimeType {
    type V = MimeTypeModel;

    open spec fn view(&self) -> MimeTypeModel {
        match self {
            MimeType::Markdown => MimeTypeModel::Markdown,
            MimeType::Plain => MimeTypeModel::Plain,
            MimeType::Other(id) => MimeTypeModel::Other(id@),
        }
    }
}

impl Clone for MimeType {
    fn clone(&self) -> (r: Self)
        ensures
            r == *self,
    {
        match self {
            MimeType::Markdown => MimeType::Markdown,
            MimeType::Plain => MimeType::Plain,
            MimeType::Other(id) => MimeType::Other(id.clone()),
        }
    }
}

/// What the aggregator reads of one MIME-encoded payload: its text, when the
/// payload is textual, and nothing otherwise. Non-textual payloads are carried
/// for a renderer but never inspected here.
pub enum MimeValue {
    Text(String),
    Structured,
}

impl View for MimeValue {
    type V = Option<Seq<char>>;

    open spec fn view(&self) -> Option<Seq<char>> {
        match self {
            MimeValue::Text(s) => Some(s@),
            MimeValue::Structured => None,
        }
    }
}

impl Clone for MimeValue {
    fn clone(&self) -> (r: Self)
        ensures
            r == *self,
    {
        match self {
            MimeValue::Text(s) => MimeValue::Text(s.clone()),
            MimeValue::Structured => MimeValue::Structured,
        }
    }
}

/// The text of a textual payload, or empty text for a non-textual one.
pub open spec fn text_or_empty(t: Option<Seq<char>>) -> Seq<char> {
    match t {
        Some(s) => s,
        None => Seq::<char>::empty(),
    }
}

impl MimeValue {
    /// The payload's text, substituting empty text when there is none.
    pub fn as_text(&self) -> (s: &str)
        ensures
            s@ == text_or_empty(self@),
    {
        match self {
            MimeValue::Text(s) => s.as_str(),
            MimeValue::Structured => {
                proof {
                    reveal_strlit("");
                    assert(""@ =~= Seq::<char>::empty());
                }
                ""
            },
        }
    }
}

/// One offered representation: a MIME-type identifier and its payload.
pub struct MimeEntry {
    pub mime_type: MimeType,
    pub value: MimeValue,
}

impl View for MimeEntry {
    type V = (MimeTypeModel, Option<Seq<char>>);

    open spec fn view(&self) -> (MimeTypeModel, Option<Seq<char>>) {
        (self.mime_type@, self.value@)
    }
}

/// Mathematical model of a [`MimeBundle`]: the offered representations, in
/// the order the message carried them.
pub type BundleModel = Seq<(MimeTypeModel, Option<Seq<char>>)>;

/// Whether `m` is the markdown type (when `want_markdown`) or the plain type.
pub open spec fn matches_kind(m: MimeTypeModel, want_markdown: bool) -> bool {
    if want_markdown {
        m is Markdown
    } else {
        m is Plain
    }
}

/// The first entry at or after position `i` whose type is the wanted one.
pub open spec fn first_entry_from(b: BundleModel, want_markdown: bool, i: int) -> Option<
    (MimeTypeModel, Option<Seq<char>>),
>
    decreases b.len() - i,
{
    if i < 0 || i >= b.len() {
        None
    } else if matches_kind(b[i].0, want_markdown) {
        Some(b[i])
    } else {
        first_entry_from(b, want_markdown, i + 1)
    }
}

/// The entry that representation selection picks out of `b`: the first
/// markdown-type entry when one is offered, else the first plain-type entry,
/// else nothing. The priority order is fixed, from most preferred (markdown)
/// down to the universal fallback (plain text).
pub open spec fn spec_richest(b: BundleModel) -> Option<(MimeTypeModel, Option<Seq<char>>)> {
    if first_entry_from(b, true, 0) is Some {
        first_entry_from(b, true, 0)
    } else {
        first_entry_from(b, false, 0)
    }
}

/// The MIME mapping carried by a result or display message: representations
/// of one value under competing MIME types.
pub struct MimeBundle {
    pub entries: Vec<MimeEntry>,
}

impl View for MimeBundle {
    type V = BundleModel;

    open spec fn view(&self) -> BundleModel {
        self.entries@.map_values(|e: MimeEntry| e@)
    }
}

impl MimeBundle {
    /// A bundle with the given representations, kept in order.
    pub fn new(entries: Vec<MimeEntry>) -> (b: Self)
        ensures
            b.entries == entries,
    {
        MimeBundle { entries }
    }

    /// Scan for the first entry of the wanted kind, starting at the front.
    fn find_kind(&self, want_markdown: bool) -> (r: Option<&MimeEntry>)
        ensures
            (match r {
                Some(e) => first_entry_from(self@, want_markdown, 0) == Some(e@),
                None => first_entry_from(self@, want_markdown, 0) is None,
            }),
    {
        let n = self.entries.len();
        let mut i: usize = 0;
        while i < n
            invariant
                n == self.entries.len(),
                i <= n,
                first_entry_from(self@, want_markdown, 0) == first_entry_from(
                    self@,
                    want_markdown,
                    i as int,
                ),
            decreases n - i,
        {
            let e = &self.entries[i];
            let hit = if want_markdown {
                matches!(e.mime_type, MimeType::Markdown)
            } else {
                matches!(e.mime_type, MimeType::Plain)
            };
            if hit {
                return Some(e);
            }
            i += 1;
        }
        None
    }

    /// Select the best available representation: the first markdown-type
    /// entry when one is offered, else the first plain-type entry. When
    /// neither prioritized type is offered, selection fails and the caller is
    /// expected to skip the message.
    pub fn richest(&self) -> (r: Option<(MimeType, MimeValue)>)
        ensures
            (match r {
                Some(p) => spec_richest(self@) == Some((p.0@, p.1@)),
                None => spec_richest(self@) is None,
            }),
    {
        if let Some(e) = self.find_kind(true) {
            return Some((e.mime_type.clone(), e.value.clone()));
        }
        if let Some(e) = self.find_kind(false) {
            return Some((e.mime_type.clone(), e.value.clone()));
        }
        None
    }
}

/// A found entry of the wanted kind is of that kind and stands in the bundle;
/// and one is found exactly when the bundle offers one.
proof fn lemma_first_entry_from(b: BundleModel, want_markdown: bool, i: int)
    requires
        0 <= i <= b.len(),
    ensures
        (first_entry_from(b, want_markdown, i) is Some) <==> (exists|j: int|
            i <= j < b.len() && matches_kind(b[j].0, want_markdown)),
        (match first_entry_from(b, want_markdown, i) {
            Some(e) => matches_kind(e.0, want_markdown) && exists|j: int|
                i <= j < b.len() && b[j] == e
            ,
            None => true,
        }),
    decreases b.len() - i,
{
    if i < b.len() {
        lemma_first_entry_from(b, want_markdown, i + 1);
    }
}

/// Selection determinism. When the mapping offers a markdown-type entry,
/// selection picks a markdown-type entry of the mapping, whatever else is
/// offered; when it offers neither a markdown-type nor a plain-type entry,
/// selection fails.
pub proof fn lemma_selection_determinism(b: BundleModel)
    ensures
        (exists|i: int| 0 <= i < b.len() && b[i].0 is Markdown) ==> (match spec_richest(b) {
            Some(e) => e.0 is Markdown && exists|j: int| 0 <= j < b.len() && b[j] == e,
            None => false,
        }),
        (forall|i: int|
            0 <= i < b.len() ==> !(#[trigger] b[i].0 is Markdown) && !(b[i].0 is Plain))
            ==> spec_richest(b) is None,
{
    lemma_first_entry_from(b, true, 0);
    lemma_first_entry_from(b, false, 0);
}

} // verus!
