//! The generic attributed tree the engine maps entities from and to: a node
//! is a tag name, an ordered attribute list, ordered children, and optional
//! text content.  Typed accessors surface precise error kinds instead of
//! silently propagating absence.

use vstd::prelude::*;
use crate::error::{Error, ErrorKindView, ErrorView, SVDError, SVDErrorView};

verus! {

/// One node of the document tree.
#[derive(Debug)]
pub struct Tree {
    /// The tag name.
    pub name: String,
    /// Attributes in document order, each a key and a value.
    pub attributes: Vec<(String, String)>,
    /// Child nodes in document order.
    pub children: Vec<Tree>,
    /// Text content, if any.
    pub text: Option<String>,
}

/// Mathematical model of [`Tree`].
#[verifier::ext_equal]
pub struct TreeView {
    pub name: Seq<char>,
    pub attributes: Seq<(Seq<char>, Seq<char>)>,
    pub children: Seq<TreeView>,
    pub text: Option<Seq<char>>,
}

/// The model of a tree node, children modelled recursively.
pub open spec fn tree_view(t: Tree) -> TreeView
    decreases t,
{
    TreeView {
        name: t.name@,
        attributes: t.attributes.deep_view(),
        children: trees_view(t.children@),
        text: t.text.deep_view(),
    }
}

/// The models of a list of nodes, in order.
pub open spec fn trees_view(ts: Seq<Tree>) -> Seq<TreeView>
    decreases ts,
{
    if ts.len() == 0 {
        Seq::empty()
    } else {
        seq![tree_view(ts[0])] + trees_view(ts.drop_first())
    }
}

/// Pointwise reading of [`trees_view`].
pub proof fn lemma_trees_view_index(ts: Seq<Tree>)
    ensures
        trees_view(ts).len() == ts.len(),
        forall|i: int| 0 <= i < ts.len() ==> trees_view(ts)[i] == tree_view(#[trigger] ts[i]),
    decreases ts,
{
    if ts.len() > 0 {
        lemma_trees_view_index(ts.drop_first());
        assert forall|i: int| 0 <= i < ts.len() implies trees_view(ts)[i] == tree_view(
            #[trigger] ts[i],
        ) by {
            if i > 0 {
                assert(trees_view(ts)[i] == trees_view(ts.drop_first())[i - 1]);
                assert(ts.drop_first()[i - 1] == ts[i]);
            }
        }
    }
}

impl View for Tree {
    type V = TreeView;

    open spec fn view(&self) -> TreeView {
        tree_view(*self)
    }
}

impl DeepView for Tree {
    type V = TreeView;

    open spec fn deep_view(&self) -> TreeView {
        tree_view(*self)
    }
}

/// The first child carrying the given tag name, if any.
pub open spec fn first_child(cs: Seq<TreeView>, tag: Seq<char>) -> Option<TreeView>
    decreases cs.len(),
{
    if cs.len() == 0 {
        None
    } else if cs[0].name == tag {
        Some(cs[0])
    } else {
        first_child(cs.drop_first(), tag)
    }
}

/// The value of the first attribute carrying the given key, if any.
pub open spec fn first_attr(attrs: Seq<(Seq<char>, Seq<char>)>, key: Seq<char>) -> Option<
    Seq<char>,
>
    decreases attrs.len(),
{
    if attrs.len() == 0 {
        None
    } else if attrs[0].0 == key {
        Some(attrs[0].1)
    } else {
        first_attr(attrs.drop_first(), key)
    }
}

/// If position `i` holds the first match, the search returns it.
pub proof fn lemma_first_child_found(cs: Seq<TreeView>, tag: Seq<char>, i: int)
    requires
        0 <= i < cs.len(),
        cs[i].name == tag,
        forall|j: int| 0 <= j < i ==> (#[trigger] cs[j]).name != tag,
    ensures
        first_child(cs, tag) == Some(cs[i]),
    decreases i,
{
    if i > 0 {
        lemma_first_child_found(cs.drop_first(), tag, i - 1);
    }
}

/// If no position matches, the search comes back empty.
pub proof fn lemma_first_child_none(cs: Seq<TreeView>, tag: Seq<char>)
    requires
        forall|j: int| 0 <= j < cs.len() ==> (#[trigger] cs[j]).name != tag,
    ensures
        first_child(cs, tag) is None,
    decreases cs.len(),
{
    if cs.len() > 0 {
        lemma_first_child_none(cs.drop_first(), tag);
    }
}

/// If position `i` holds the first matching key, the lookup returns its value.
pub proof fn lemma_first_attr_found(attrs: Seq<(Seq<char>, Seq<char>)>, key: Seq<char>, i: int)
    requires
        0 <= i < attrs.len(),
        attrs[i].0 == key,
        forall|j: int| 0 <= j < i ==> (#[trigger] attrs[j]).0 != key,
    ensures
        first_attr(attrs, key) == Some(attrs[i].1),
    decreases i,
{
    if i > 0 {
        lemma_first_attr_found(attrs.drop_first(), key, i - 1);
    }
}

/// If no key matches, the lookup comes back empty.
pub proof fn lemma_first_attr_none(attrs: Seq<(Seq<char>, Seq<char>)>, key: Seq<char>)
    requires
        forall|j: int| 0 <= j < attrs.len() ==> (#[trigger] attrs[j]).0 != key,
    ensures
        first_attr(attrs, key) is None,
    decreases attrs.len(),
{
    if attrs.len() > 0 {
        lemma_first_attr_none(attrs.drop_first(), key);
    }
}

/// A vector of nodes models to the same sequence either way.
pub proof fn lemma_trees_view_eq_deep_view(v: Vec<Tree>)
    ensures
        trees_view(v@) =~= v.deep_view(),
{
    lemma_trees_view_index(v@);
}

/// A childless element whose only content is text.
pub open spec fn spec_text_elem(name: Seq<char>, text: Seq<char>) -> TreeView {
    TreeView {
        name,
        attributes: Seq::empty(),
        children: Seq::empty(),
        text: Some(text),
    }
}

/// Zero or one text elements, after an optional value.
pub open spec fn spec_opt_text_elem(name: Seq<char>, o: Option<Seq<char>>) -> Seq<TreeView> {
    match o {
        None => Seq::empty(),
        Some(x) => seq![spec_text_elem(name, x)],
    }
}

/// Searching a concatenation: a hit in the front part wins, otherwise the
/// search continues in the back part.
pub proof fn lemma_first_child_split(a: Seq<TreeView>, b: Seq<TreeView>, tag: Seq<char>)
    ensures
        first_child(a + b, tag) == (if first_child(a, tag) is Some {
            first_child(a, tag)
        } else {
            first_child(b, tag)
        }),
    decreases a.len(),
{
    if a.len() == 0 {
        assert(a + b =~= b);
    } else {
        assert((a + b)[0] == a[0]);
        if a[0].name != tag {
            assert((a + b).drop_first() =~= a.drop_first() + b);
            lemma_first_child_split(a.drop_first(), b, tag);
        }
    }
}

/// Searching a single element.
pub proof fn lemma_first_child_single(e: TreeView, tag: Seq<char>)
    ensures
        first_child(seq![e], tag) == (if e.name == tag {
            Some(e)
        } else {
            None::<TreeView>
        }),
{
    assert(seq![e].len() == 1);
    assert(seq![e][0] == e);
    assert(seq![e].drop_first() =~= Seq::<TreeView>::empty());
    assert(first_child(Seq::<TreeView>::empty(), tag) is None);
    assert(first_child(seq![e].drop_first(), tag) is None);
}

/// Searching an optional text element.
pub proof fn lemma_first_child_opt_text(name: Seq<char>, o: Option<Seq<char>>, tag: Seq<char>)
    ensures
        first_child(spec_opt_text_elem(name, o), tag) == (if name == tag && o is Some {
            Some(spec_text_elem(name, o->0))
        } else {
            None::<TreeView>
        }),
{
    match o {
        None => {
        },
        Some(x) => {
            lemma_first_child_single(spec_text_elem(name, x), tag);
        },
    }
}

/// The model of the missing-tag error [`Tree::require_child`] raises.
pub open spec fn missing_tag_view(tag: Seq<char>) -> ErrorView {
    ErrorView {
        kind: ErrorKindView::Svd(SVDErrorView::MissingTag(tag)),
        context: Seq::empty(),
    }
}

/// The model of the empty-tag error the text accessors raise.
pub open spec fn empty_tag_view(tag: Seq<char>) -> ErrorView {
    ErrorView {
        kind: ErrorKindView::Svd(SVDErrorView::EmptyTag(tag)),
        context: Seq::empty(),
    }
}

/// The model of [`Tree::child_text`]: the text of the first child with the
/// tag, a missing-tag error without one, an empty-tag error on a child
/// without text.
pub open spec fn spec_child_text(t: TreeView, tag: Seq<char>) -> Result<Seq<char>, ErrorView> {
    match first_child(t.children, tag) {
        None => Err(missing_tag_view(tag)),
        Some(c) => match c.text {
            None => Err(empty_tag_view(tag)),
            Some(x) => Ok(x),
        },
    }
}

/// The model of [`Tree::optional_child_text`]: never fails solely on
/// absence.
pub open spec fn spec_optional_child_text(t: TreeView, tag: Seq<char>) -> Result<
    Option<Seq<char>>,
    ErrorView,
> {
    match first_child(t.children, tag) {
        None => Ok(None),
        Some(c) => match c.text {
            None => Err(empty_tag_view(tag)),
            Some(x) => Ok(Some(x)),
        },
    }
}

/// String versus literal comparison by content.
pub fn str_eq(a: &String, b: &str) -> (r: bool)
    ensures
        r == (a@ == b@),
{
    let bo = b.to_owned();
    *a == bo
}

impl Tree {
    /// A childless, attributeless element: a tag name and optional text.
    pub fn new_element(name: &str, text: Option<String>) -> (t: Tree)
        ensures
            t@.name == name@,
            t@.attributes =~= Seq::<(Seq<char>, Seq<char>)>::empty(),
            t@.children =~= Seq::<TreeView>::empty(),
            t@.text == text.deep_view(),
    {
        Tree { name: name.to_owned(), attributes: Vec::new(), children: Vec::new(), text }
    }

    /// The first child with the given tag name, if any.
    pub fn find_child<'a>(&'a self, tag: &str) -> (r: Option<&'a Tree>)
        ensures
            match r {
                Some(c) => first_child(self@.children, tag@) == Some(c@),
                None => first_child(self@.children, tag@) is None,
            },
    {
        let n = self.children.len();
        let mut i: usize = 0;
        while i < n
            invariant
                i <= n == self.children@.len(),
                forall|j: int| 0 <= j < i ==> (#[trigger] self@.children[j]).name != tag@,
            decreases n - i,
        {
            if str_eq(&self.children[i].name, tag) {
                proof {
                    lemma_trees_view_index(self.children@);
                    lemma_first_child_found(self@.children, tag@, i as int);
                }
                return Some(&self.children[i]);
            }
            proof {
                lemma_trees_view_index(self.children@);
            }
            i += 1;
        }
        proof {
            lemma_trees_view_index(self.children@);
            lemma_first_child_none(self@.children, tag@);
        }
        None
    }

    /// The first child with the given tag name, or the missing-tag error
    /// carrying the expected name.
    pub fn require_child<'a>(&'a self, tag: &str) -> (r: Result<&'a Tree, Error>)
        ensures
            match r {
                Ok(c) => first_child(self@.children, tag@) == Some(c@),
                Err(e) => first_child(self@.children, tag@) is None && e@ =~= missing_tag_view(
                    tag@,
                ),
            },
    {
        match self.find_child(tag) {
            Some(c) => Ok(c),
            None => Err(Error::svd(SVDError::MissingTag(tag.to_owned()))),
        }
    }

    /// The text content of the required child with the given tag name.
    pub fn child_text(&self, tag: &str) -> (r: Result<String, Error>)
        ensures
            match (r, spec_child_text(self@, tag@)) {
                (Ok(s), Ok(sv)) => s@ == sv,
                (Err(e), Err(ev)) => e@ =~= ev,
                _ => false,
            },
    {
        let c = self.require_child(tag)?;
        match &c.text {
            Some(t) => Ok(t.clone()),
            None => Err(Error::svd(SVDError::EmptyTag(tag.to_owned()))),
        }
    }

    /// The text content of the child with the given tag name, or `None`
    /// when there is no such child.
    pub fn optional_child_text(&self, tag: &str) -> (r: Result<Option<String>, Error>)
        ensures
            match (r, spec_optional_child_text(self@, tag@)) {
                (Ok(s), Ok(sv)) => s.deep_view() == sv,
                (Err(e), Err(ev)) => e@ =~= ev,
                _ => false,
            },
    {
        match self.find_child(tag) {
            None => Ok(None),
            Some(c) => match &c.text {
                Some(t) => Ok(Some(t.clone())),
                None => Err(Error::svd(SVDError::EmptyTag(tag.to_owned()))),
            },
        }
    }

    /// The raw value of the first attribute with the given key, if any.
    pub fn attribute(&self, key: &str) -> (r: Option<String>)
        ensures
            match r {
                Some(v) => first_attr(self@.attributes, key@) == Some(v@),
                None => first_attr(self@.attributes, key@) is None,
            },
    {
        let n = self.attributes.len();
        let mut i: usize = 0;
        while i < n
            invariant
                i <= n == self.attributes@.len(),
                forall|j: int| 0 <= j < i ==> (#[trigger] self@.attributes[j]).0 != key@,
            decreases n - i,
        {
            if str_eq(&self.attributes[i].0, key) {
                proof {
                    lemma_first_attr_found(self@.attributes, key@, i as int);
                }
                return Some(self.attributes[i].1.clone());
            }
            i += 1;
        }
        proof {
            lemma_first_attr_none(self@.attributes, key@);
        }
        None
    }
}

} // verus!
