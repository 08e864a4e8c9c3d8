//! The document model that every decoder works on: a tree of elements, each
//! carrying a tag and a list of named string-valued attributes.

use vstd::prelude::*;

use crate::error::{res_model, DecodeError, ErrorModel};
use crate::scalars::{is_float_literal, spec_parse_u32, Amount};

verus! {

/// One XML attribute: a name and its raw string value.
pub struct Attr {
    pub name: String,
    pub value: String,
}

impl DeepView for Attr {
    type V = (Seq<char>, Seq<char>);

    open spec fn deep_view(&self) -> (Seq<char>, Seq<char>) {
        (self.name@, self.value@)
    }
}

/// One XML element: its tag, its attributes, and its element children,
/// all in document order.
pub struct Element {
    pub tag: String,
    pub attrs: Vec<Attr>,
    pub children: Vec<Element>,
}

/// The abstract value of an `Element`.
pub struct ElemModel {
    pub tag: Seq<char>,
    pub attrs: Seq<(Seq<char>, Seq<char>)>,
    pub children: Seq<ElemModel>,
}

/// The abstract value of one element.
pub open spec fn elem_model(e: Element) -> ElemModel
    decreases e,
{
    ElemModel {
        tag: e.tag@,
        attrs: e.attrs.deep_view(),
        children: elems_model(e.children@),
    }
}

/// The abstract values of a sequence of elements, in order.
pub open spec fn elems_model(es: Seq<Element>) -> Seq<ElemModel>
    decreases es,
{
    if es.len() == 0 {
        Seq::empty()
    } else {
        elems_model(es.subrange(0, es.len() - 1)).push(elem_model(es[es.len() - 1]))
    }
}

impl DeepView for Element {
    type V = ElemModel;

    open spec fn deep_view(&self) -> ElemModel {
        elem_model(*self)
    }
}

pub proof fn lemma_elems_model_len(es: Seq<Element>)
    ensures
        elems_model(es).len() == es.len(),
    decreases es.len(),
{
    if es.len() > 0 {
        lemma_elems_model_len(es.subrange(0, es.len() - 1));
    }
}

pub proof fn lemma_elems_model_index(es: Seq<Element>, i: int)
    requires
        0 <= i < es.len(),
    ensures
        elems_model(es).len() == es.len(),
        elems_model(es)[i] == elem_model(es[i]),
    decreases es.len(),
{
    lemma_elems_model_len(es);
    if i < es.len() - 1 {
        let front = es.subrange(0, es.len() - 1);
        lemma_elems_model_index(front, i);
    }
}

/// The value paired with the first occurrence of `name`, if any: attribute
/// lookup, and abbreviation-table lookup, are both first-match.
pub open spec fn spec_lookup(attrs: Seq<(Seq<char>, Seq<char>)>, name: Seq<char>) -> Option<Seq<char>>
    decreases attrs.len(),
{
    if attrs.len() == 0 {
        None
    } else if attrs[0].0 == name {
        Some(attrs[0].1)
    } else {
        spec_lookup(attrs.drop_first(), name)
    }
}

/// A required string attribute: its text, or `MissingAttribute`.
pub open spec fn spec_required_str(e: ElemModel, section: Seq<char>, attribute: Seq<char>) -> Result<
    Seq<char>,
    ErrorModel,
> {
    match spec_lookup(e.attrs, attribute) {
        Some(v) => Ok(v),
        None => Err(ErrorModel::MissingAttribute { section, attribute }),
    }
}

/// An optional string attribute: absent and blank are both "no value".
pub open spec fn spec_opt_str(e: ElemModel, attribute: Seq<char>) -> Option<Seq<char>> {
    match spec_lookup(e.attrs, attribute) {
        Some(v) => if v.len() > 0 {
            Some(v)
        } else {
            None
        },
        None => None,
    }
}

/// A required numeric attribute: its validated text, `MissingAttribute`, or
/// `MalformedValue` where the text is not a numeric literal.
pub open spec fn spec_required_amount(
    e: ElemModel,
    section: Seq<char>,
    attribute: Seq<char>,
) -> Result<Seq<char>, ErrorModel> {
    match spec_lookup(e.attrs, attribute) {
        Some(v) => if is_float_literal(v) {
            Ok(v)
        } else {
            Err(ErrorModel::MalformedValue { section, attribute, raw: v, target: "decimal"@ })
        },
        None => Err(ErrorModel::MissingAttribute { section, attribute }),
    }
}

/// An optional numeric attribute: absent and blank are "no value"; anything
/// else must be a numeric literal.
pub open spec fn spec_opt_amount(
    e: ElemModel,
    section: Seq<char>,
    attribute: Seq<char>,
) -> Result<Option<Seq<char>>, ErrorModel> {
    match spec_opt_str(e, attribute) {
        Some(v) => if is_float_literal(v) {
            Ok(Some(v))
        } else {
            Err(ErrorModel::MalformedValue { section, attribute, raw: v, target: "decimal"@ })
        },
        None => Ok(None),
    }
}

/// Law: a blank attribute and an absent one are observationally identical
/// through the optional accessors — both read as "no value".
pub proof fn lemma_blank_is_absent(
    e1: ElemModel,
    e2: ElemModel,
    section: Seq<char>,
    attribute: Seq<char>,
)
    requires
        spec_lookup(e1.attrs, attribute) == Some(Seq::<char>::empty()),
        spec_lookup(e2.attrs, attribute) is None,
    ensures
        spec_opt_str(e1, attribute) == spec_opt_str(e2, attribute),
        spec_opt_str(e1, attribute) is None,
        spec_opt_amount(e1, section, attribute) == spec_opt_amount(e2, section, attribute),
        spec_opt_amount(e1, section, attribute) == Ok::<Option<Seq<char>>, ErrorModel>(None),
        spec_opt_u32(e1, section, attribute) == spec_opt_u32(e2, section, attribute),
        spec_opt_u32(e1, section, attribute) == Ok::<Option<u32>, ErrorModel>(None),
{
}

/// A required `u32` attribute.
pub open spec fn spec_required_u32(e: ElemModel, section: Seq<char>, attribute: Seq<char>) -> Result<
    u32,
    ErrorModel,
> {
    match spec_lookup(e.attrs, attribute) {
        Some(v) => match spec_parse_u32(v) {
            Some(n) => Ok(n as u32),
            None => Err(ErrorModel::MalformedValue { section, attribute, raw: v, target: "u32"@ }),
        },
        None => Err(ErrorModel::MissingAttribute { section, attribute }),
    }
}

/// An optional `u32` attribute: absent and blank are "no value".
pub open spec fn spec_opt_u32(e: ElemModel, section: Seq<char>, attribute: Seq<char>) -> Result<
    Option<u32>,
    ErrorModel,
> {
    match spec_opt_str(e, attribute) {
        Some(v) => match spec_parse_u32(v) {
            Some(n) => Ok(Some(n as u32)),
            None => Err(ErrorModel::MalformedValue { section, attribute, raw: v, target: "u32"@ }),
        },
        None => Ok(None),
    }
}

/// All descendants of an element (itself included) whose tag is `tag`, in
/// document order: the element first, then each child's descendants.
pub open spec fn spec_descendants(m: ElemModel, tag: Seq<char>) -> Seq<ElemModel>
    decreases m,
{
    (if m.tag == tag {
        seq![m]
    } else {
        Seq::empty()
    }) + spec_descendants_list(m.children, tag)
}

/// The concatenated descendant matches of a sequence of subtrees, in order.
pub open spec fn spec_descendants_list(cs: Seq<ElemModel>, tag: Seq<char>) -> Seq<ElemModel>
    decreases cs,
{
    if cs.len() == 0 {
        Seq::empty()
    } else {
        spec_descendants_list(cs.subrange(0, cs.len() - 1), tag) + spec_descendants(
            cs[cs.len() - 1],
            tag,
        )
    }
}

/// Collects references to all descendants of `e` (itself included) whose
/// tag is `tag`, appending them to `out` in document order.
fn collect_with_tag<'a>(e: &'a Element, tag: &str, out: &mut Vec<&'a Element>)
    ensures
        final (out).deep_view() == old(out).deep_view() + spec_descendants(elem_model(*e), tag@),
    decreases *e,
{
    let ghost m = elem_model(*e);
    if str_eq(e.tag.as_str(), tag) {
        out.push(e);
    }
    let ghost base = out.deep_view();
    proof {
        if m.tag == tag@ {
            assert(base =~= old(out).deep_view() + seq![m]);
        }
        lemma_elems_model_len(e.children@);
    }
    let ghost cm = m.children;
    let n = e.children.len();
    let mut i: usize = 0;
    while i < n
        invariant
            0 <= i <= n,
            n == e.children.len(),
            m == elem_model(*e),
            cm == m.children,
            cm.len() == n,
            out.deep_view() == base + spec_descendants_list(cm.subrange(0, i as int), tag@),
        decreases n - i,
    {
        proof {
            lemma_elems_model_index(e.children@, i as int);
        }
        collect_with_tag(&e.children[i], tag, out);
        proof {
            let sub1 = cm.subrange(0, i as int + 1);
            assert(sub1.subrange(0, sub1.len() - 1) =~= cm.subrange(0, i as int));
            assert(sub1[sub1.len() - 1] == cm[i as int]);
        }
        i = i + 1;
    }
    proof {
        assert(cm.subrange(0, n as int) =~= cm);
        assert(base + spec_descendants_list(cm, tag@) =~= old(out).deep_view() + spec_descendants(
            m,
            tag@,
        ));
    }
}

/// All descendants of `e` (itself included) whose tag is `tag`, in document
/// order.
pub fn descendants_with_tag<'a>(e: &'a Element, tag: &str) -> (r: Vec<&'a Element>)
    ensures
        r.deep_view() == spec_descendants(elem_model(*e), tag@),
{
    let mut out: Vec<&'a Element> = Vec::new();
    collect_with_tag(e, tag, &mut out);
    proof {
        assert(Seq::<ElemModel>::empty() + spec_descendants(elem_model(*e), tag@) =~=
            spec_descendants(elem_model(*e), tag@));
        assert(out.deep_view() =~= spec_descendants(elem_model(*e), tag@));
    }
    out
}

/// Character-by-character string equality.
pub fn str_eq(a: &str, b: &str) -> (r: bool)
    ensures
        r == (a@ == b@),
{
    let na = a.unicode_len();
    let nb = b.unicode_len();
    if na != nb {
        return false;
    }
    let mut i: usize = 0;
    while i < na
        invariant
            0 <= i <= na,
            na == a@.len(),
            nb == b@.len(),
            na == nb,
            forall|j: int| 0 <= j < i ==> a@[j] == b@[j],
        decreases na - i,
    {
        if a.get_char(i) != b.get_char(i) {
            return false;
        }
        i = i + 1;
    }
    proof {
        assert(a@ =~= b@);
    }
    true
}

impl Element {
    /// The value of the first attribute named `name`, if any.
    fn find_attr(&self, name: &str) -> (r: Option<&String>)
        ensures
            match r {
                Some(v) => spec_lookup(self.deep_view().attrs, name@) == Some(v@),
                None => spec_lookup(self.deep_view().attrs, name@) is None,
            },
    {
        let ghost am = self.deep_view().attrs;
        proof {
            assert(am.subrange(0, am.len() as int) =~= am);
        }
        let n = self.attrs.len();
        let mut i: usize = 0;
        while i < n
            invariant
                0 <= i <= n,
                n == self.attrs.len(),
                am == elem_model(*self).attrs,
                am.len() == n,
                spec_lookup(am, name@) == spec_lookup(am.subrange(i as int, am.len() as int), name@),
            decreases n - i,
        {
            if str_eq(self.attrs[i].name.as_str(), name) {
                return Some(&self.attrs[i].value);
            }
            proof {
                let sub = am.subrange(i as int, am.len() as int);
                assert(sub.drop_first() =~= am.subrange(i as int + 1, am.len() as int));
            }
            i = i + 1;
        }
        proof {
            assert(am.subrange(n as int, am.len() as int) =~= Seq::<(Seq<char>, Seq<char>)>::empty());
        }
        None
    }

    /// A required string attribute of a `section` record; `MissingAttribute`
    /// where it is absent.
    pub fn get_attribute(&self, section: &str, attribute: &str) -> (r: Result<String, DecodeError>)
        ensures
            res_model(r) == spec_required_str(self.deep_view(), section@, attribute@),
    {
        match self.find_attr(attribute) {
            Some(v) => Ok(v.clone()),
            None => Err(
                DecodeError::MissingAttribute {
                    section: section.to_owned(),
                    attribute: attribute.to_owned(),
                },
            ),
        }
    }

    /// An optional string attribute: an absent attribute and a blank one both
    /// read as "no value".
    pub fn get_attribute_opt(&self, attribute: &str) -> (r: Option<String>)
        ensures
            r.deep_view() == spec_opt_str(self.deep_view(), attribute@),
    {
        match self.find_attr(attribute) {
            Some(v) => {
                if v.as_str().is_empty() {
                    None
                } else {
                    Some(v.clone())
                }
            },
            None => None,
        }
    }

    /// A required numeric attribute of a `section` record, kept as validated
    /// text.
    pub fn parse_attribute_amount(&self, section: &str, attribute: &str) -> (r: Result<
        Amount,
        DecodeError,
    >)
        ensures
            res_model(r) == spec_required_amount(self.deep_view(), section@, attribute@),
    {
        match self.get_attribute(section, attribute) {
            Ok(v) => match Amount::new(v.clone()) {
                Some(a) => Ok(a),
                None => Err(
                    DecodeError::MalformedValue {
                        section: section.to_owned(),
                        attribute: attribute.to_owned(),
                        raw: v,
                        target: "decimal".to_owned(),
                    },
                ),
            },
            Err(e) => Err(e),
        }
    }

    /// An optional numeric attribute: absent and blank are "no value".
    pub fn parse_attribute_opt_amount(&self, section: &str, attribute: &str) -> (r: Result<
        Option<Amount>,
        DecodeError,
    >)
        ensures
            res_model(r) == spec_opt_amount(self.deep_view(), section@, attribute@),
    {
        match self.get_attribute_opt(attribute) {
            Some(v) => match Amount::new(v.clone()) {
                Some(a) => Ok(Some(a)),
                None => Err(
                    DecodeError::MalformedValue {
                        section: section.to_owned(),
                        attribute: attribute.to_owned(),
                        raw: v,
                        target: "decimal".to_owned(),
                    },
                ),
            },
            None => Ok(None),
        }
    }

    /// A required `u32` attribute of a `section` record.
    pub fn parse_attribute_u32(&self, section: &str, attribute: &str) -> (r: Result<
        u32,
        DecodeError,
    >)
        ensures
            res_model(r) == spec_required_u32(self.deep_view(), section@, attribute@),
    {
        match self.get_attribute(section, attribute) {
            Ok(v) => match crate::scalars::parse_u32(v.as_str()) {
                Some(n) => Ok(n),
                None => Err(
                    DecodeError::MalformedValue {
                        section: section.to_owned(),
                        attribute: attribute.to_owned(),
                        raw: v,
                        target: "u32".to_owned(),
                    },
                ),
            },
            Err(e) => Err(e),
        }
    }

    /// An optional `u32` attribute: absent and blank are "no value".
    pub fn parse_attribute_opt_u32(&self, section: &str, attribute: &str) -> (r: Result<
        Option<u32>,
        DecodeError,
    >)
        ensures
            res_model(r) == spec_opt_u32(self.deep_view(), section@, attribute@),
    {
        match self.get_attribute_opt(attribute) {
            Some(v) => match crate::scalars::parse_u32(v.as_str()) {
                Some(n) => Ok(Some(n)),
                None => Err(
                    DecodeError::MalformedValue {
                        section: section.to_owned(),
                        attribute: attribute.to_owned(),
                        raw: v,
                        target: "u32".to_owned(),
                    },
                ),
            },
            None => Ok(None),
        }
    }
}

} // verus!
