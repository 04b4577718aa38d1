//! The legacy generation's semi-structured document tree, and a reader for
//! the subset of XML that the legacy endpoints emit.
//!
//! The reader handles a prolog, nested elements with optional attributes
//! (attributes are skipped), self-closing elements, and character data.
//! Character data is kept as written: entity references are not decoded.
//! The grammar of the subset is written down as the relation
//! `doc_represents`, and every tree the reader hands back is proved to be a
//! correct reading of its input under it; which inputs are accepted is not
//! specified beyond that, and a rejection is always a `DataError`.

use vstd::prelude::*;

use crate::error::{TvdbError, TvdbResult};

verus! {

/// One element of a parsed document: its tag name, its character data, and
/// its child elements in document order.
#[derive(Debug)]
pub struct XmlNode {
    pub name: String,
    pub text: String,
    pub children: Vec<XmlNode>,
}

/// The first child of `children` whose tag name is `name`.
pub open spec fn child_lookup(children: Seq<XmlNode>, name: Seq<char>) -> Option<XmlNode>
    decreases children.len(),
{
    if children.len() == 0 {
        None
    } else if children[0].name@ == name {
        Some(children[0])
    } else {
        child_lookup(children.drop_first(), name)
    }
}

/// The first child element of `n` named `name`.
pub open spec fn find_child(n: XmlNode, name: Seq<char>) -> Option<XmlNode> {
    child_lookup(n.children@, name)
}

proof fn lemma_child_lookup_at(children: Seq<XmlNode>, name: Seq<char>, i: int)
    requires
        0 <= i < children.len(),
        children[i].name@ == name,
        forall|m: int| 0 <= m < i ==> (#[trigger] children[m]).name@ != name,
    ensures
        child_lookup(children, name) == Some(children[i]),
    decreases i,
{
    if i > 0 {
        lemma_child_lookup_at(children.drop_first(), name, i - 1);
    }
}

proof fn lemma_child_lookup_none(children: Seq<XmlNode>, name: Seq<char>)
    requires
        forall|m: int| 0 <= m < children.len() ==> (#[trigger] children[m]).name@ != name,
    ensures
        child_lookup(children, name) is None,
    decreases children.len(),
{
    if children.len() > 0 {
        lemma_child_lookup_none(children.drop_first(), name);
    }
}

impl XmlNode {
    /// Find the first child element with the given tag name.
    pub fn child<'a>(&'a self, name: &str) -> (r: Option<&'a XmlNode>)
        ensures
            match r {
                Some(c) => find_child(*self, name@) == Some(*c),
                None => find_child(*self, name@) is None,
            },
    {
        let n: String = name.to_owned();
        let mut i: usize = 0;
        while i < self.children.len()
            invariant
                0 <= i <= self.children@.len(),
                n@ == name@,
                forall|m: int| 0 <= m < i ==> (#[trigger] self.children@[m]).name@ != name@,
            decreases self.children@.len() - i,
        {
            if self.children[i].name.eq(&n) {
                proof {
                    lemma_child_lookup_at(self.children@, name@, i as int);
                }
                return Some(&self.children[i]);
            }
            i = i + 1;
        }
        proof {
            lemma_child_lookup_none(self.children@, name@);
        }
        None
    }
}

/// The mathematical value of an element tree.
pub ghost struct XmlNodeV {
    pub name: Seq<char>,
    pub text: Seq<char>,
    pub children: Seq<XmlNodeV>,
}

/// The view of an element tree.
pub open spec fn xv(n: XmlNode) -> XmlNodeV
    decreases n,
{
    XmlNodeV { name: n.name@, text: n.text@, children: xv_seq(n.children@) }
}

/// The views of a sequence of elements.
pub open spec fn xv_seq(s: Seq<XmlNode>) -> Seq<XmlNodeV>
    decreases s,
{
    if s.len() == 0 {
        Seq::empty()
    } else {
        seq![xv(s[0])] + xv_seq(s.drop_first())
    }
}

pub proof fn lemma_xv_seq_index(s: Seq<XmlNode>)
    ensures
        xv_seq(s).len() == s.len(),
        forall|i: int| 0 <= i < s.len() ==> xv_seq(s)[i] == xv(#[trigger] s[i]),
    decreases s.len(),
{
    if s.len() > 0 {
        lemma_xv_seq_index(s.drop_first());
        assert forall|i: int| 0 <= i < s.len() implies xv_seq(s)[i] == xv(#[trigger] s[i]) by {
            if i > 0 {
                assert(s.drop_first()[i - 1] == s[i]);
            }
        }
    }
}

proof fn lemma_xv_seq_push(s: Seq<XmlNode>, x: XmlNode)
    ensures
        xv_seq(s.push(x)) == xv_seq(s) + seq![xv(x)],
{
    lemma_xv_seq_index(s.push(x));
    lemma_xv_seq_index(s);
    assert forall|i: int| 0 <= i < s.len() + 1 implies #[trigger] xv_seq(s.push(x))[i]
        == (xv_seq(s) + seq![xv(x)])[i] by {
        if i < s.len() {
            assert(s.push(x)[i] == s[i]);
        } else {
            assert(s.push(x)[i] == x);
        }
    }
    assert(xv_seq(s.push(x)) =~= xv_seq(s) + seq![xv(x)]);
}

/// A character that may stand in a tag name.
pub open spec fn spec_name_char(c: char) -> bool {
    ||| 48 <= c as int <= 57
    ||| 65 <= c as int <= 90
    ||| 97 <= c as int <= 122
    ||| c == '_'
    ||| c == '-'
    ||| c == ':'
    ||| c == '.'
}

/// An XML whitespace character.
pub open spec fn spec_space_char(c: char) -> bool {
    c == ' ' || c == '\t' || c == '\r' || c == '\n'
}

/// Every character of `s` is whitespace.
pub open spec fn ws_only(s: Seq<char>) -> bool {
    forall|k: int| 0 <= k < s.len() ==> spec_space_char(#[trigger] s[k])
}

/// No character of `s` opens a tag.
pub open spec fn no_lt(s: Seq<char>) -> bool {
    forall|k: int| 0 <= k < s.len() ==> (#[trigger] s[k]) != '<'
}

/// The first position at or after `i` that does not hold a name character.
pub open spec fn scan_name(s: Seq<char>, i: int) -> int
    decreases s.len() - i,
{
    if i < 0 || i >= s.len() {
        s.len() as int
    } else if spec_name_char(s[i]) {
        scan_name(s, i + 1)
    } else {
        i
    }
}

/// The first position at or after `i` that holds `>`.
pub open spec fn scan_to_gt(s: Seq<char>, i: int) -> int
    decreases s.len() - i,
{
    if i < 0 || i >= s.len() {
        s.len() as int
    } else if s[i] == '>' {
        i
    } else {
        scan_to_gt(s, i + 1)
    }
}

proof fn lemma_scan_name_at(s: Seq<char>, a: int, b: int)
    requires
        0 <= a <= b <= s.len(),
        forall|m: int| a <= m < b ==> spec_name_char(#[trigger] s[m]),
        b == s.len() || !spec_name_char(s[b]),
    ensures
        scan_name(s, a) == b,
    decreases b - a,
{
    if a < b {
        lemma_scan_name_at(s, a + 1, b);
    }
}

proof fn lemma_scan_to_gt_at(s: Seq<char>, a: int, b: int)
    requires
        0 <= a <= b <= s.len(),
        forall|m: int| a <= m < b ==> (#[trigger] s[m]) != '>',
        b == s.len() || s[b] == '>',
    ensures
        scan_to_gt(s, a) == b,
    decreases b - a,
{
    if a < b {
        lemma_scan_to_gt_at(s, a + 1, b);
    }
}

/// The span `s` reads as exactly the element `node` under the subset
/// grammar: `<name`, anything up to the first `>` (skipped attributes),
/// then either a self-closing slash or character data and child elements
/// up to the matching `</name>`.
pub open spec fn element_represents(s: Seq<char>, node: XmlNodeV) -> bool
    decreases node, 0int,
{
    let ne = scan_name(s, 1);
    let g = scan_to_gt(s, ne);
    &&& s.len() > 0
    &&& s[0] == '<'
    &&& 1 < ne < s.len()
    &&& g < s.len()
    &&& node.name == s.subrange(1, ne)
    &&& if s[g - 1] == '/' {
        &&& g + 1 == s.len()
        &&& node.text == Seq::<char>::empty()
        &&& node.children == Seq::<XmlNodeV>::empty()
    } else {
        &&& s.len() >= g + 1 + (ne + 2)
        &&& s.subrange(s.len() - (ne + 2), s.len() as int) == seq!['<', '/'] + node.name + seq![
            '>',
        ]
        &&& content_represents(s.subrange(g + 1, s.len() - (ne + 2)), node.children, node.text)
    }
}

/// The span `s` reads as the element content `(children, text)`: character
/// data and child elements in document order, the data concatenating to
/// `text`.
pub open spec fn content_represents(s: Seq<char>, children: Seq<XmlNodeV>, text: Seq<char>) -> bool
    decreases children, s.len(),
{
    if s.len() == 0 {
        children.len() == 0 && text.len() == 0
    } else if s[0] == '<' {
        if children.len() == 0 {
            false
        } else {
            exists|k: int|
                0 < k <= s.len() && element_represents(#[trigger] s.subrange(0, k), children[0])
                    && content_represents(
                    s.subrange(k, s.len() as int),
                    children.drop_first(),
                    text,
                )
        }
    } else {
        exists|k: int|
            0 < k <= s.len() && k <= text.len() && no_lt(#[trigger] s.subrange(0, k))
                && s.subrange(0, k) == text.subrange(0, k) && content_represents(
                s.subrange(k, s.len() as int),
                children,
                text.subrange(k, text.len() as int),
            )
    }
}

/// The prefix before the root element: whitespace, with at most one
/// `<?...>`-style prolog in it.
pub open spec fn prolog_prefix(t: Seq<char>) -> bool {
    ||| ws_only(t)
    ||| exists|p: int, q: int|
        #![trigger t[p], t[q]]
        {
            &&& 0 <= p
            &&& p + 2 <= q < t.len()
            &&& ws_only(t.subrange(0, p))
            &&& t[p] == '<'
            &&& t[p + 1] == '?'
            &&& (forall|m: int| p + 2 <= m < q ==> (#[trigger] t[m]) != '>')
            &&& t[q] == '>'
            &&& ws_only(t.subrange(q + 1, t.len() as int))
        }
}

/// The text reads as the document `node`: an optional prolog, then the
/// root element, possibly followed by trailing input that the reader
/// ignores.
pub open spec fn doc_represents(s: Seq<char>, node: XmlNodeV) -> bool {
    exists|a: int, e: int|
        #![trigger s.subrange(0, a), s.subrange(a, e)]
        {
            &&& 0 <= a <= e <= s.len()
            &&& prolog_prefix(s.subrange(0, a))
            &&& element_represents(s.subrange(a, e), node)
        }
}

/// A content decomposition followed by another is a content decomposition
/// of the concatenation.
proof fn lemma_content_append(
    c1: Seq<char>,
    ch1: Seq<XmlNodeV>,
    t1: Seq<char>,
    c2: Seq<char>,
    ch2: Seq<XmlNodeV>,
    t2: Seq<char>,
)
    requires
        content_represents(c1, ch1, t1),
        content_represents(c2, ch2, t2),
    ensures
        content_represents(c1 + c2, ch1 + ch2, t1 + t2),
    decreases ch1, c1.len(),
{
    if c1.len() == 0 {
        assert(c1 + c2 =~= c2);
        assert(ch1 + ch2 =~= ch2);
        assert(t1 + t2 =~= t2);
    } else if c1[0] == '<' {
        let k = choose|k: int|
            0 < k <= c1.len() && element_represents(#[trigger] c1.subrange(0, k), ch1[0])
                && content_represents(c1.subrange(k, c1.len() as int), ch1.drop_first(), t1);
        assert(c1.subrange(k, c1.len() as int).len() < c1.len());
        lemma_content_append(c1.subrange(k, c1.len() as int), ch1.drop_first(), t1, c2, ch2, t2);
        let s = c1 + c2;
        assert(s.subrange(0, k) =~= c1.subrange(0, k));
        assert(s.subrange(k, s.len() as int) =~= c1.subrange(k, c1.len() as int) + c2);
        assert((ch1 + ch2)[0] == ch1[0]);
        assert((ch1 + ch2).drop_first() =~= ch1.drop_first() + ch2);
        assert(s[0] == '<');
        assert(0 < k <= s.len() && element_represents(s.subrange(0, k), (ch1 + ch2)[0])
            && content_represents(s.subrange(k, s.len() as int), (ch1 + ch2).drop_first(), t1 + t2));
    } else {
        let k = choose|k: int|
            0 < k <= c1.len() && k <= t1.len() && no_lt(#[trigger] c1.subrange(0, k))
                && c1.subrange(0, k) == t1.subrange(0, k) && content_represents(
                c1.subrange(k, c1.len() as int),
                ch1,
                t1.subrange(k, t1.len() as int),
            );
        lemma_content_append(
            c1.subrange(k, c1.len() as int),
            ch1,
            t1.subrange(k, t1.len() as int),
            c2,
            ch2,
            t2,
        );
        let s = c1 + c2;
        let t = t1 + t2;
        assert(s.subrange(0, k) =~= c1.subrange(0, k));
        assert(s.subrange(k, s.len() as int) =~= c1.subrange(k, c1.len() as int) + c2);
        assert(t.subrange(0, k) =~= t1.subrange(0, k));
        assert(t.subrange(k, t.len() as int) =~= t1.subrange(k, t1.len() as int) + t2);
        assert(s[0] != '<');
        assert(0 < k <= s.len() && k <= t.len() && no_lt(s.subrange(0, k))
            && s.subrange(0, k) == t.subrange(0, k) && content_represents(
            s.subrange(k, s.len() as int),
            ch1 + ch2,
            t.subrange(k, t.len() as int),
        ));
    }
}

/// A tag-free run is a content decomposition of itself.
proof fn lemma_content_text(run: Seq<char>)
    requires
        no_lt(run),
    ensures
        content_represents(run, Seq::<XmlNodeV>::empty(), run),
{
    if run.len() > 0 {
        let k = run.len() as int;
        assert(run.subrange(0, k) =~= run);
        assert(run.subrange(k, k).len() == 0);
        assert(content_represents(run.subrange(k, k), Seq::<XmlNodeV>::empty(), run.subrange(k, k)));
        assert(run[0] != '<');
        assert(0 < k <= run.len() && k <= run.len() && no_lt(run.subrange(0, k))
            && run.subrange(0, k) == run.subrange(0, k) && content_represents(
            run.subrange(k, run.len() as int),
            Seq::<XmlNodeV>::empty(),
            run.subrange(k, run.len() as int),
        ));
    }
}

/// One element span is a content decomposition holding that child alone.
proof fn lemma_content_child(s: Seq<char>, node: XmlNodeV)
    requires
        element_represents(s, node),
    ensures
        content_represents(s, seq![node], Seq::<char>::empty()),
{
    let k = s.len() as int;
    assert(s.subrange(0, k) =~= s);
    assert(content_represents(s.subrange(k, k), seq![node].drop_first(), Seq::<char>::empty()))
        by {
        assert(seq![node].drop_first().len() == 0);
    }
    assert(s[0] == '<');
    assert(0 < k <= s.len() && element_represents(s.subrange(0, k), seq![node][0])
        && content_represents(s.subrange(k, s.len() as int), seq![node].drop_first(), Seq::<
        char,
    >::empty()));
}

/// The error every malformed document maps to.
fn xml_error() -> (r: TvdbError)
    ensures
        r matches TvdbError::DataError { .. },
{
    TvdbError::DataError { reason: "Malformed XML document".to_owned() }
}

/// Whether a character may stand in a tag name.
fn is_name_char(c: char) -> (r: bool)
    ensures
        r == spec_name_char(c),
{
    let u = c as u32;
    (48 <= u && u <= 57) || (65 <= u && u <= 90) || (97 <= u && u <= 122) || c == '_' || c == '-'
        || c == ':' || c == '.'
}

/// Whether a character is XML whitespace.
fn is_space_char(c: char) -> (r: bool)
    ensures
        r == spec_space_char(c),
{
    c == ' ' || c == '\t' || c == '\r' || c == '\n'
}

/// Parse a document: an optional prolog, then one root element.  Every
/// tree handed back is a correct reading of the input under the subset
/// grammar; anything the reader does not accept fails with a `DataError`.
#[verifier::loop_isolation(false)]
pub fn parse_document(input: &str) -> (r: TvdbResult<XmlNode>)
    ensures
        r matches Ok(node) ==> doc_represents(input@, xv(node)),
        r matches Err(e) ==> e matches TvdbError::DataError { .. },
{
    let n = input.unicode_len();
    let mut pos: usize = 0;
    // Skip whitespace and a `<?...?>` prolog if one is present.
    while pos < n && is_space_char(input.get_char(pos))
        invariant
            0 <= pos <= n,
            ws_only(input@.subrange(0, pos as int)),
        decreases n - pos,
    {
        proof {
            assert(input@.subrange(0, pos + 1).drop_last() =~= input@.subrange(0, pos as int));
        }
        pos = pos + 1;
    }
    let ghost p1 = pos as int;
    let mut had_prolog = false;
    let ghost mut q1: int = 0;
    if pos < n && input.get_char(pos) == '<' && pos + 1 < n && input.get_char(pos + 1) == '?' {
        had_prolog = true;
        pos = pos + 2;
        while pos < n && input.get_char(pos) != '>'
            invariant
                p1 + 2 <= pos <= n,
                forall|m: int| p1 + 2 <= m < pos ==> input@[m] != '>',
            decreases n - pos,
        {
            pos = pos + 1;
        }
        if pos >= n {
            return Err(xml_error());
        }
        proof {
            q1 = pos as int;
        }
        pos = pos + 1;
    }
    let ghost p2 = pos as int;
    while pos < n && is_space_char(input.get_char(pos))
        invariant
            p2 <= pos <= n,
            ws_only(input@.subrange(p2, pos as int)),
        decreases n - pos,
    {
        proof {
            assert(input@.subrange(p2, pos + 1).drop_last() =~= input@.subrange(p2, pos as int));
        }
        pos = pos + 1;
    }
    let start = pos;
    match parse_element(input, start) {
        Ok((node, end)) => {
            proof {
                let t = input@.subrange(0, start as int);
                if had_prolog {
                    assert(t.subrange(0, p1) =~= input@.subrange(0, p1));
                    assert(t.subrange(q1 + 1, t.len() as int) =~= input@.subrange(
                        q1 + 1,
                        start as int,
                    ));
                    assert(t[p1] == '<' && t[p1 + 1] == '?' && t[q1] == '>');
                    assert(prolog_prefix(t));
                } else {
                    assert(t =~= input@.subrange(0, p1) + input@.subrange(p2, start as int));
                    assert(ws_only(t));
                }
                assert(element_represents(input@.subrange(start as int, end as int), xv(node)));
                assert(doc_represents(input@, xv(node)));
            }
            Ok(node)
        },
        Err(e) => Err(e),
    }
}

/// Parse one element starting at `pos`; returns the element and the
/// position just past its closing tag.
#[verifier::loop_isolation(false)]
fn parse_element(input: &str, pos: usize) -> (r: TvdbResult<(XmlNode, usize)>)
    requires
        pos <= input@.len(),
    ensures
        r matches Ok(p) ==> pos < p.1 <= input@.len(),
        r matches Ok(p) ==> element_represents(
            input@.subrange(pos as int, p.1 as int),
            xv(p.0),
        ),
        r matches Err(e) ==> e matches TvdbError::DataError { .. },
    decreases input@.len() - pos,
{
    let n = input.unicode_len();
    if pos >= n || input.get_char(pos) != '<' {
        return Err(xml_error());
    }
    let name_start = pos + 1;
    let mut i: usize = name_start;
    while i < n && is_name_char(input.get_char(i))
        invariant
            name_start <= i <= n,
            forall|m: int| name_start <= m < i ==> spec_name_char(#[trigger] input@[m]),
        decreases n - i,
    {
        i = i + 1;
    }
    if i == name_start || i >= n {
        return Err(xml_error());
    }
    let ghost ne = i as int;
    let name: String = input.substring_char(name_start, i).to_owned();
    // Skip any attributes up to `>` or `/>`.
    let mut selfclose = false;
    while i < n && input.get_char(i) != '>'
        invariant
            ne <= i <= n,
            forall|m: int| ne <= m < i ==> input@[m] != '>',
        decreases n - i,
    {
        i = i + 1;
    }
    if i >= n {
        return Err(xml_error());
    }
    let ghost g = i as int;
    if input.get_char(i - 1) == '/' {
        selfclose = true;
    }
    let mut at = i + 1;
    let mut text = String::new();
    let mut children: Vec<XmlNode> = Vec::new();
    let ghost cs = at as int;
    proof {
        lemma_scan_name_at(input@, name_start as int, ne);
        lemma_scan_to_gt_at(input@, ne, g);
    }
    if selfclose {
        proof {
            let e = input@.subrange(pos as int, at as int);
            lemma_element_span_scans(input@, pos as int, at as int, ne, g);
            assert(e.subrange(1, ne - pos) =~= input@.subrange(pos + 1, ne));
            assert(xv_seq(children@) =~= Seq::<XmlNodeV>::empty());
            assert(element_represents(e, XmlNodeV {
                name: name@,
                text: text@,
                children: xv_seq(children@),
            }));
        }
        return Ok((XmlNode { name, text, children }, at));
    }
    // Content: character data and child elements, up to `</name>`.
    loop
        invariant
            cs <= at <= n,
            content_represents(input@.subrange(cs, at as int), xv_seq(children@), text@),
        decreases n - at,
    {
        if at >= n {
            return Err(xml_error());
        }
        if input.get_char(at) == '<' {
            if at + 1 < n && input.get_char(at + 1) == '/' {
                // Closing tag: read its name and match it.
                let close_start = at + 2;
                let mut j: usize = close_start;
                while j < n && is_name_char(input.get_char(j))
                    invariant
                        close_start <= j <= n,
                    decreases n - j,
                {
                    j = j + 1;
                }
                if j >= n || input.get_char(j) != '>' {
                    return Err(xml_error());
                }
                let close_name: String = input.substring_char(close_start, j).to_owned();
                if !name.eq(&close_name) {
                    return Err(xml_error());
                }
                proof {
                    let e = input@.subrange(pos as int, j + 1 as int);
                    lemma_element_span_scans(input@, pos as int, j + 1, ne, g);
                    assert(e.subrange(1, ne - pos) =~= input@.subrange(pos + 1, ne));
                    let nl = ne - pos - 1;
                    assert(j == at + 2 + nl);
                    assert(e.len() - (nl + 3) == at - pos);
                    assert(e.subrange(e.len() - (nl + 3), e.len() as int) =~= seq!['<', '/']
                        + name@ + seq!['>']);
                    assert(e.subrange(g - pos + 1, e.len() - (nl + 3)) =~= input@.subrange(
                        cs,
                        at as int,
                    ));
                    assert(element_represents(e, XmlNodeV {
                        name: name@,
                        text: text@,
                        children: xv_seq(children@),
                    }));
                }
                return Ok((XmlNode { name, text, children }, j + 1));
            }
            let ghost pre = input@.subrange(cs, at as int);
            match parse_element(input, at) {
                Ok((child, next)) => {
                    proof {
                        let span = input@.subrange(at as int, next as int);
                        lemma_content_child(span, xv(child));
                        lemma_content_append(
                            pre,
                            xv_seq(children@),
                            text@,
                            span,
                            seq![xv(child)],
                            Seq::<char>::empty(),
                        );
                        lemma_xv_seq_push(children@, child);
                        assert(pre + span =~= input@.subrange(cs, next as int));
                        assert(text@ + Seq::<char>::empty() =~= text@);
                    }
                    children.push(child);
                    at = next;
                },
                Err(e) => {
                    return Err(e);
                },
            }
        } else {
            // Character data: append up to the next tag open.
            let seg_start = at;
            let mut j: usize = at;
            while j < n && input.get_char(j) != '<'
                invariant
                    seg_start <= j <= n,
                    forall|m: int| seg_start <= m < j ==> input@[m] != '<',
                decreases n - j,
            {
                j = j + 1;
            }
            let seg = input.substring_char(seg_start, j);
            proof {
                let pre = input@.subrange(cs, at as int);
                lemma_content_text(seg@);
                lemma_content_append(
                    pre,
                    xv_seq(children@),
                    text@,
                    seg@,
                    Seq::<XmlNodeV>::empty(),
                    seg@,
                );
                assert(pre + seg@ =~= input@.subrange(cs, j as int));
                assert(xv_seq(children@) + Seq::<XmlNodeV>::empty() =~= xv_seq(children@));
            }
            text.append(seg);
            at = j;
        }
    }
}

/// The scans of an element span agree with the scans of the whole input.
proof fn lemma_element_span_scans(s: Seq<char>, pos: int, end: int, ne: int, g: int)
    requires
        0 <= pos < ne <= g < end <= s.len(),
        pos + 1 < ne,
        scan_name(s, pos + 1) == ne,
        scan_to_gt(s, ne) == g,
        forall|m: int| pos + 1 <= m < ne ==> spec_name_char(#[trigger] s[m]),
        !spec_name_char(s[ne]),
        forall|m: int| ne <= m < g ==> (#[trigger] s[m]) != '>',
        s[g] == '>',
    ensures
        scan_name(s.subrange(pos, end), 1) == ne - pos,
        scan_to_gt(s.subrange(pos, end), ne - pos) == g - pos,
{
    let e = s.subrange(pos, end);
    lemma_scan_name_at(e, 1, ne - pos);
    lemma_scan_to_gt_at(e, ne - pos, g - pos);
}

} // verus!
