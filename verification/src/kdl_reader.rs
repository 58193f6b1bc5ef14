//! Reading filesystem descriptions from KDL documents:
//!
//! ```kdl
//! filesystem {
//!     type "fat32"
//!     label "EFI"
//!     volume_id 1234
//! }
//! ```

use vstd::prelude::*;
use crate::filesystem::{
    Error, ErrorView, Filesystem, FilesystemView, Span, StandardFilesystemType, parse_fs_type,
    same_text,
};

verus! {

#[verifier::external_type_specification]
#[verifier::external_body]
pub struct ExKdlNode(kdl::KdlNode);

#[verifier::external_type_specification]
#[verifier::external_body]
pub struct ExKdlEntry(kdl::KdlEntry);

/// The value of a KDL entry, as far as filesystem descriptions read it.
#[derive(Debug, Clone, PartialEq)]
pub enum KdlScalar {
    Text(String),
    Integer(i128),
    Other,
}

pub ghost enum KdlScalarView {
    Text(Seq<char>),
    Integer(i128),
    Other,
}

impl View for KdlScalar {
    type V = KdlScalarView;

    open spec fn view(&self) -> KdlScalarView {
        match *self {
            KdlScalar::Text(s) => KdlScalarView::Text(s@),
            KdlScalar::Integer(i) => KdlScalarView::Integer(i),
            KdlScalar::Other => KdlScalarView::Other,
        }
    }
}

/// The child nodes of a KDL node, as `KdlNode::iter_children` yields them.
pub uninterp spec fn kdl_child_nodes(node: kdl::KdlNode) -> Seq<kdl::KdlNode>;

/// The name of a KDL node, as `KdlNode::name` gives it.
pub uninterp spec fn kdl_node_name(node: kdl::KdlNode) -> Seq<char>;

/// The source location of a KDL node, as `KdlNode::span` gives it.
pub uninterp spec fn kdl_node_span(node: kdl::KdlNode) -> Span;

/// The first argument of a KDL node, as `KdlNode::entry(0)` gives it.
pub uninterp spec fn kdl_first_argument(node: kdl::KdlNode) -> Option<kdl::KdlEntry>;

/// The value of a KDL entry, as `KdlEntry::value` gives it.
pub uninterp spec fn kdl_entry_value(entry: kdl::KdlEntry) -> KdlScalarView;

/// The source location of a KDL entry, as `KdlEntry::span` gives it.
pub uninterp spec fn kdl_entry_span(entry: kdl::KdlEntry) -> Span;

/// Calls `KdlNode::iter_children` (kdl) and collects the children in
/// order. Trusted: the result is named `kdl_child_nodes`.
#[verifier::external_body]
fn kdl_children<'a>(node: &'a kdl::KdlNode) -> (r: Vec<&'a kdl::KdlNode>)
    ensures
        r@.map_values(|c: &kdl::KdlNode| *c) == kdl_child_nodes(*node),
{
    node.iter_children().collect()
}

/// Calls `KdlNode::name` (kdl) and copies the identifier's text. Trusted:
/// the result is named `kdl_node_name`.
#[verifier::external_body]
fn kdl_name(node: &kdl::KdlNode) -> (r: String)
    ensures
        r@ == kdl_node_name(*node),
{
    node.name().value().to_owned()
}

/// Calls `KdlNode::span` (kdl) and keeps its offset and length. Trusted:
/// the result is named `kdl_node_span`.
#[verifier::external_body]
fn kdl_span(node: &kdl::KdlNode) -> (r: Span)
    ensures
        r == kdl_node_span(*node),
{
    let span = node.span();
    Span { offset: span.offset(), len: span.len() }
}

/// Calls `KdlNode::entry(0)` (kdl), the node's first argument. Trusted:
/// the result is named `kdl_first_argument`.
#[verifier::external_body]
fn kdl_argument<'a>(node: &'a kdl::KdlNode) -> (r: Option<&'a kdl::KdlEntry>)
    ensures
        match r {
            Some(e) => kdl_first_argument(*node) == Some(*e),
            None => kdl_first_argument(*node) is None,
        },
{
    node.entry(0usize)
}

/// Calls `KdlEntry::value` (kdl) and keeps string and integer values.
/// Trusted: the result is named `kdl_entry_value`.
#[verifier::external_body]
fn kdl_value(entry: &kdl::KdlEntry) -> (r: KdlScalar)
    ensures
        r@ == kdl_entry_value(*entry),
{
    match entry.value() {
        kdl::KdlValue::String(s) => KdlScalar::Text(s.clone()),
        kdl::KdlValue::Integer(i) => KdlScalar::Integer(*i),
        kdl::KdlValue::Float(_) => KdlScalar::Other,
        kdl::KdlValue::Bool(_) => KdlScalar::Other,
        kdl::KdlValue::Null => KdlScalar::Other,
    }
}

/// Calls `KdlEntry::span` (kdl) and keeps its offset and length. Trusted:
/// the result is named `kdl_entry_span`.
#[verifier::external_body]
fn kdl_entry_location(entry: &kdl::KdlEntry) -> (r: Span)
    ensures
        r == kdl_entry_span(*entry),
{
    let span = entry.span();
    Span { offset: span.offset(), len: span.len() }
}

/// The first argument of a child node: its location and value.
#[derive(Debug, Clone, PartialEq)]
pub struct KdlArgument {
    pub span: Span,
    pub value: KdlScalar,
}

/// What a filesystem description reads of one child node.
#[derive(Debug, Clone, PartialEq)]
pub struct KdlChild {
    pub name: String,
    pub span: Span,
    pub argument: Option<KdlArgument>,
}

pub ghost struct KdlChildView {
    pub name: Seq<char>,
    pub span: Span,
    pub argument: Option<(Span, KdlScalarView)>,
}

impl View for KdlChild {
    type V = KdlChildView;

    open spec fn view(&self) -> KdlChildView {
        KdlChildView {
            name: self.name@,
            span: self.span,
            argument: match self.argument {
                Some(a) => Some((a.span, a.value@)),
                None => None,
            },
        }
    }
}

/// What a filesystem description reads of KDL child node `c`.
pub open spec fn kdl_child_view(c: kdl::KdlNode) -> KdlChildView {
    KdlChildView {
        name: kdl_node_name(c),
        span: kdl_node_span(c),
        argument: match kdl_first_argument(c) {
            Some(e) => Some((kdl_entry_span(e), kdl_entry_value(e))),
            None => None,
        },
    }
}

/// The views of a sequence of children.
pub open spec fn child_views(s: Seq<KdlChild>) -> Seq<KdlChildView> {
    s.map_values(|c: KdlChild| c@)
}

/// Reads the children of `node`, in order.
pub fn read_children(node: &kdl::KdlNode) -> (r: Vec<KdlChild>)
    ensures
        child_views(r@) == kdl_child_nodes(*node).map_values(|c: kdl::KdlNode| kdl_child_view(c)),
{
    let nodes = kdl_children(node);
    let ghost expected = kdl_child_nodes(*node).map_values(|c: kdl::KdlNode| kdl_child_view(c));
    let mut r: Vec<KdlChild> = Vec::new();
    let mut i: usize = 0;
    while i < nodes.len()
        invariant
            i <= nodes@.len(),
            nodes@.map_values(|c: &kdl::KdlNode| *c) == kdl_child_nodes(*node),
            expected == kdl_child_nodes(*node).map_values(|c: kdl::KdlNode| kdl_child_view(c)),
            r@.len() == i,
            forall|j: int| 0 <= j < i ==> #[trigger] r@[j]@ == expected[j],
        decreases nodes@.len() - i,
    {
        let child = nodes[i];
        assert(*child == kdl_child_nodes(*node)[i as int]);
        let argument = match kdl_argument(child) {
            Some(e) => Some(KdlArgument { span: kdl_entry_location(e), value: kdl_value(e) }),
            None => None,
        };
        r.push(KdlChild { name: kdl_name(child), span: kdl_span(child), argument });
        i = i + 1;
    }
    assert(child_views(r@) =~= expected);
    r
}

/// The settings a filesystem description has read so far.
pub ghost struct Settings {
    pub fs_type: Option<Seq<char>>,
    pub label: Option<Seq<char>>,
    pub uuid: Option<Seq<char>>,
    pub volume_id: Option<u32>,
}

/// The string that a child node gives as its first argument.
pub open spec fn child_text_of(c: KdlChildView) -> Result<Seq<char>, ErrorView> {
    match c.argument {
        None => Err(ErrorView::MissingEntry { at: c.span, id: "0"@ }),
        Some((at, value)) => match value {
            KdlScalarView::Text(t) => Ok(t),
            _ => Err(ErrorView::InvalidType { at }),
        },
    }
}

/// The integer that a child node gives as its first argument.
pub open spec fn child_integer_of(c: KdlChildView) -> Result<i128, ErrorView> {
    match c.argument {
        None => Err(ErrorView::MissingEntry { at: c.span, id: "0"@ }),
        Some((at, value)) => match value {
            KdlScalarView::Integer(i) => Ok(i),
            _ => Err(ErrorView::InvalidType { at }),
        },
    }
}

/// The settings after reading child `c`: `type`, `label` and `uuid` take a
/// string, `volume_id` an integer (kept to its low 32 bits); a later child
/// overrides an earlier one; any other child is an error.
pub open spec fn apply_child(s: Settings, c: KdlChildView) -> Result<Settings, ErrorView> {
    if c.name == "type"@ {
        match child_text_of(c) {
            Ok(t) => Ok(Settings { fs_type: Some(t), ..s }),
            Err(e) => Err(e),
        }
    } else if c.name == "label"@ {
        match child_text_of(c) {
            Ok(t) => Ok(Settings { label: Some(t), ..s }),
            Err(e) => Err(e),
        }
    } else if c.name == "uuid"@ {
        match child_text_of(c) {
            Ok(t) => Ok(Settings { uuid: Some(t), ..s }),
            Err(e) => Err(e),
        }
    } else if c.name == "volume_id"@ {
        match child_integer_of(c) {
            Ok(i) => Ok(Settings { volume_id: Some(i as u32), ..s }),
            Err(e) => Err(e),
        }
    } else {
        Err(ErrorView::UnsupportedNode { at: c.span, name: c.name })
    }
}

/// The settings read from `children` in order, or the first error.
pub open spec fn settings_of(children: Seq<KdlChildView>) -> Result<Settings, ErrorView>
    decreases children.len(),
{
    if children.len() == 0 {
        Ok(Settings { fs_type: None, label: None, uuid: None, volume_id: None })
    } else {
        match settings_of(children.drop_last()) {
            Ok(s) => apply_child(s, children.last()),
            Err(e) => Err(e),
        }
    }
}

/// The filesystem that a node at `at` with `children` describes: the type
/// is required; FAT types take no UUID, other types no volume id.
pub open spec fn description_of(at: Span, children: Seq<KdlChildView>) -> Result<FilesystemView, ErrorView> {
    match settings_of(children) {
        Err(e) => Err(e),
        Ok(s) => match s.fs_type {
            None => Err(ErrorView::UnsupportedNode { at, name: "type"@ }),
            Some(t) => if t == "fat32"@ || t == "fat16"@ {
                if s.uuid is Some {
                    Err(ErrorView::InvalidArguments { at, advice: Some(t + " does not support UUID"@) })
                } else if t == "fat32"@ {
                    Ok(FilesystemView::Fat32 { label: s.label, volume_id: s.volume_id })
                } else {
                    Ok(FilesystemView::Fat16 { label: s.label, volume_id: s.volume_id })
                }
            } else if s.volume_id is Some {
                Err(
                    ErrorView::InvalidArguments {
                        at,
                        advice: Some("volume_id is only supported for FAT32/FAT16, not "@ + t),
                    },
                )
            } else {
                match parse_fs_type(t) {
                    Ok(filesystem_type) => Ok(
                        FilesystemView::Standard { filesystem_type, label: s.label, uuid: s.uuid },
                    ),
                    Err(_) => Err(ErrorView::UnknownVariant),
                }
            },
        },
    }
}

/// A result with its strings as text.
pub open spec fn result_view<T: View>(r: Result<T, Error>) -> Result<T::V, ErrorView> {
    match r {
        Ok(v) => Ok(v@),
        Err(e) => Err(e@),
    }
}

/// The string of a child's first argument.
fn child_text(c: &KdlChild) -> (r: Result<String, Error>)
    ensures
        result_view(r) == child_text_of(c@),
{
    match &c.argument {
        None => {
            proof {
                reveal_strlit("0");
            }
            Err(Error::MissingEntry { at: c.span, id: String::from_str("0") })
        },
        Some(a) => match &a.value {
            KdlScalar::Text(t) => Ok(t.clone()),
            _ => Err(Error::InvalidType { at: a.span }),
        },
    }
}

/// The integer of a child's first argument.
fn child_integer(c: &KdlChild) -> (r: Result<i128, Error>)
    ensures
        match r {
            Ok(i) => child_integer_of(c@) == Ok::<i128, ErrorView>(i),
            Err(e) => child_integer_of(c@) == Err::<i128, ErrorView>(e@),
        },
{
    match &c.argument {
        None => Err(Error::MissingEntry { at: c.span, id: String::from_str("0") }),
        Some(a) => match &a.value {
            KdlScalar::Integer(i) => Ok(*i),
            _ => Err(Error::InvalidType { at: a.span }),
        },
    }
}

pub open spec fn settings_view(
    fs_type: Option<String>,
    label: Option<String>,
    uuid: Option<String>,
    volume_id: Option<u32>,
) -> Settings {
    Settings {
        fs_type: crate::filesystem::opt_text(fs_type),
        label: crate::filesystem::opt_text(label),
        uuid: crate::filesystem::opt_text(uuid),
        volume_id,
    }
}

impl Filesystem {
    /// The filesystem that a node at `at` with `children` describes.
    pub fn from_kdl_children(at: Span, children: &Vec<KdlChild>) -> (r: Result<Self, Error>)
        ensures
            result_view(r) == description_of(at, child_views(children@)),
    {
        let ghost views = child_views(children@);
        let mut fs_type: Option<String> = None;
        let mut label: Option<String> = None;
        let mut uuid: Option<String> = None;
        let mut volume_id: Option<u32> = None;
        let mut i: usize = 0;
        assert(views.take(0) =~= Seq::<KdlChildView>::empty());
        while i < children.len()
            invariant
                i <= children@.len(),
                views == child_views(children@),
                settings_of(views.take(i as int)) == Ok::<Settings, ErrorView>(
                    settings_view(fs_type, label, uuid, volume_id),
                ),
            decreases children@.len() - i,
        {
            let c = &children[i];
            assert(views.take(i + 1).drop_last() =~= views.take(i as int));
            assert(views.take(i + 1).last() == c@);
            if same_text(c.name.as_str(), "type") {
                match child_text(c) {
                    Ok(t) => fs_type = Some(t),
                    Err(e) => {
                        assert(description_of(at, views) == Err::<FilesystemView, ErrorView>(e@)) by {
                            lemma_settings_error_sticks(views, i as int + 1, e@);
                        }
                        return Err(e);
                    },
                }
            } else if same_text(c.name.as_str(), "label") {
                match child_text(c) {
                    Ok(t) => label = Some(t),
                    Err(e) => {
                        assert(description_of(at, views) == Err::<FilesystemView, ErrorView>(e@)) by {
                            lemma_settings_error_sticks(views, i as int + 1, e@);
                        }
                        return Err(e);
                    },
                }
            } else if same_text(c.name.as_str(), "uuid") {
                match child_text(c) {
                    Ok(t) => uuid = Some(t),
                    Err(e) => {
                        assert(description_of(at, views) == Err::<FilesystemView, ErrorView>(e@)) by {
                            lemma_settings_error_sticks(views, i as int + 1, e@);
                        }
                        return Err(e);
                    },
                }
            } else if same_text(c.name.as_str(), "volume_id") {
                match child_integer(c) {
                    Ok(v) => volume_id = Some(#[verifier::truncate] (v as u32)),
                    Err(e) => {
                        assert(description_of(at, views) == Err::<FilesystemView, ErrorView>(e@)) by {
                            lemma_settings_error_sticks(views, i as int + 1, e@);
                        }
                        return Err(e);
                    },
                }
            } else {
                let e = Error::UnsupportedNode { at: c.span, name: c.name.clone() };
                assert(description_of(at, views) == Err::<FilesystemView, ErrorView>(e@)) by {
                    lemma_settings_error_sticks(views, i as int + 1, e@);
                }
                return Err(e);
            }
            i = i + 1;
        }
        assert(views.take(i as int) =~= views);
        let fs_type = match fs_type {
            Some(t) => t,
            None => {
                proof {
                    reveal_strlit("type");
                }
                return Err(Error::UnsupportedNode { at, name: String::from_str("type") });
            },
        };
        if same_text(fs_type.as_str(), "fat32") || same_text(fs_type.as_str(), "fat16") {
            if uuid.is_some() {
                let advice = fs_type.clone().concat(" does not support UUID");
                return Err(Error::InvalidArguments { at, advice: Some(advice) });
            }
            if same_text(fs_type.as_str(), "fat32") {
                Ok(Filesystem::Fat32 { label, volume_id })
            } else {
                Ok(Filesystem::Fat16 { label, volume_id })
            }
        } else {
            if volume_id.is_some() {
                let advice = String::from_str("volume_id is only supported for FAT32/FAT16, not ").concat(
                    fs_type.as_str(),
                );
                return Err(Error::InvalidArguments { at, advice: Some(advice) });
            }
            match StandardFilesystemType::from_name(fs_type.as_str()) {
                Ok(filesystem_type) => Ok(Filesystem::Standard { filesystem_type, label, uuid }),
                Err(e) => Err(e),
            }
        }
    }

    /// Reads a filesystem description from a KDL node.
    pub fn from_kdl_node(node: &kdl::KdlNode) -> (r: Result<Self, Error>)
        ensures
            result_view(r) == description_of(
                kdl_node_span(*node),
                kdl_child_nodes(*node).map_values(|c: kdl::KdlNode| kdl_child_view(c)),
            ),
    {
        let children = read_children(node);
        Self::from_kdl_children(kdl_span(node), &children)
    }
}

/// The advice given for a filesystem type that is not supported.
pub const SUPPORTED_TYPES_ADVICE: &'static str =
    "'fat32', 'fat16', 'ext4', 'f2fs', 'xfs', 'btrfs', 'bcachefs', 'swap' are supported";

/// The filesystem type that a KDL property at `at` with `value` names.
pub open spec fn property_of(at: Span, value: KdlScalarView) -> Result<StandardFilesystemType, ErrorView> {
    match value {
        KdlScalarView::Text(t) => match parse_fs_type(t) {
            Ok(filesystem_type) => Ok(filesystem_type),
            Err(_) => Err(ErrorView::UnsupportedValue { at, advice: Some(SUPPORTED_TYPES_ADVICE@) }),
        },
        _ => Err(ErrorView::InvalidType { at }),
    }
}

impl StandardFilesystemType {
    /// Reads a filesystem type from a KDL property.
    pub fn from_kdl_property(entry: &kdl::KdlEntry) -> (r: Result<Self, Error>)
        ensures
            match r {
                Ok(t) => property_of(kdl_entry_span(*entry), kdl_entry_value(*entry)) == Ok::<
                    StandardFilesystemType,
                    ErrorView,
                >(t),
                Err(e) => property_of(kdl_entry_span(*entry), kdl_entry_value(*entry)) == Err::<
                    StandardFilesystemType,
                    ErrorView,
                >(e@),
            },
    {
        let at = kdl_entry_location(entry);
        let value = match kdl_value(entry) {
            KdlScalar::Text(t) => t,
            _ => return Err(Error::InvalidType { at }),
        };
        match StandardFilesystemType::from_name(value.as_str()) {
            Ok(t) => Ok(t),
            Err(_) => Err(
                Error::UnsupportedValue { at, advice: Some(String::from_str(SUPPORTED_TYPES_ADVICE)) },
            ),
        }
    }
}

/// A description that sets a UUID never reads as a FAT filesystem, and one
/// that sets a volume id never reads as a standard filesystem.
pub proof fn lemma_description_options_match_type(at: Span, children: Seq<KdlChildView>)
    ensures
        description_of(at, children) matches Ok(FilesystemView::Fat32 { .. })
            ==> settings_of(children)->Ok_0.uuid is None,
        description_of(at, children) matches Ok(FilesystemView::Fat16 { .. })
            ==> settings_of(children)->Ok_0.uuid is None,
        description_of(at, children) matches Ok(FilesystemView::Standard { .. })
            ==> settings_of(children)->Ok_0.volume_id is None,
{
}

/// A description that reads successfully keeps every setting read from its
/// children: the filesystem's label is the `label` setting whatever the type;
/// a FAT filesystem carries the `volume_id` setting, a standard one the
/// `uuid` setting and the type that the `type` setting names.
pub proof fn lemma_description_keeps_settings(at: Span, children: Seq<KdlChildView>)
    ensures
        description_of(at, children) is Ok ==> settings_of(children) is Ok,
        description_of(at, children) matches Ok(FilesystemView::Fat32 { label, volume_id }) ==> {
            &&& label == settings_of(children)->Ok_0.label
            &&& volume_id == settings_of(children)->Ok_0.volume_id
            &&& settings_of(children)->Ok_0.fs_type == Some("fat32"@)
        },
        description_of(at, children) matches Ok(FilesystemView::Fat16 { label, volume_id }) ==> {
            &&& label == settings_of(children)->Ok_0.label
            &&& volume_id == settings_of(children)->Ok_0.volume_id
            &&& settings_of(children)->Ok_0.fs_type == Some("fat16"@)
        },
        description_of(at, children) matches Ok(
            FilesystemView::Standard { filesystem_type, label, uuid },
        ) ==> {
            &&& label == settings_of(children)->Ok_0.label
            &&& uuid == settings_of(children)->Ok_0.uuid
            &&& settings_of(children)->Ok_0.fs_type == Some(crate::filesystem::fs_type_name(filesystem_type))
        },
{
    reveal_strlit("fat32");
    reveal_strlit("fat16");
    if let Ok(s) = settings_of(children) {
        if let Some(t) = s.fs_type {
            crate::filesystem::lemma_parsed_name_displays_back(t);
        }
    }
}

/// Once reading children fails, the description fails with that error.
proof fn lemma_settings_error_sticks(children: Seq<KdlChildView>, n: int, e: ErrorView)
    requires
        0 <= n <= children.len(),
        settings_of(children.take(n)) == Err::<Settings, ErrorView>(e),
    ensures
        settings_of(children) == Err::<Settings, ErrorView>(e),
    decreases children.len() - n,
{
    if n < children.len() {
        assert(children.take(n + 1).drop_last() =~= children.take(n));
        lemma_settings_error_sticks(children, n + 1, e);
    } else {
        assert(children.take(n) =~= children);
    }
}

} // verus!
