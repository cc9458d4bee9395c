use vstd::prelude::*;
use crate::objects::{KObj, KObjView};

verus! {

/// The terminal colours that the prompt uses.
#[derive(Clone, Copy, Debug, PartialEq, Eq, Structural)]
pub enum Colour {
    Black,
    Red,
    Green,
    Yellow,
    Blue,
    Purple,
    Cyan,
}

/// The text `text` as ansi_term renders it in `colour`, bold or not.
pub uninterp spec fn painted(colour: Colour, bold: bool, text: Seq<char>) -> Seq<char>;

/// Relies on ansi_term's `Style::paint` and its `Display`: the rendered string
/// depends on the style and the text alone.
#[verifier::external_body]
pub(crate) fn paint(colour: Colour, bold: bool, text: &str) -> (r: String)
    ensures
        r@ == painted(colour, bold, text@),
{
    let c = match colour {
        Colour::Black => ansi_term::Colour::Black,
        Colour::Red => ansi_term::Colour::Red,
        Colour::Green => ansi_term::Colour::Green,
        Colour::Yellow => ansi_term::Colour::Yellow,
        Colour::Blue => ansi_term::Colour::Blue,
        Colour::Purple => ansi_term::Colour::Purple,
        Colour::Cyan => ansi_term::Colour::Cyan,
    };
    let style = ansi_term::Style { foreground: Some(c), is_bold: bold, ..ansi_term::Style::default() };
    style.paint(text).to_string()
}

/// The label of an optional setting: its value in bold, or a plain "none".
pub open spec fn label(colour: Colour, v: Option<Seq<char>>) -> Seq<char> {
    match v {
        Some(n) => painted(colour, true, n),
        None => painted(colour, false, "none"@),
    }
}

/// The label of the selected object, coloured by its kind.
pub open spec fn object_label(o: KObjView) -> Seq<char> {
    match o {
        KObjView::Empty => painted(Colour::Yellow, false, "none"@),
        KObjView::Pod { name, .. } => painted(Colour::Yellow, true, name),
        KObjView::Node(n) => painted(Colour::Blue, true, n),
        KObjView::Deployment(n) => painted(Colour::Purple, true, n),
        KObjView::Service(n) => painted(Colour::Cyan, true, n),
        KObjView::ReplicaSet(n) => painted(Colour::Green, true, n),
        KObjView::StatefulSet(n) => painted(Colour::Green, true, n),
        KObjView::ConfigMap(n) => painted(Colour::Black, true, n),
        KObjView::Secret(n) => painted(Colour::Red, true, n),
        KObjView::Job(n) => painted(Colour::Purple, true, n),
    }
}

/// The prompt for a cluster name, a namespace and a selected object.
pub open spec fn prompt_of(
    cluster: Option<Seq<char>>,
    namespace: Option<Seq<char>>,
    obj: KObjView,
) -> Seq<char> {
    "["@ + label(Colour::Red, cluster) + "] ["@ + label(Colour::Green, namespace) + "] ["@
        + object_label(obj) + "] > "@
}

fn label_exec(colour: Colour, v: Option<&String>) -> (r: String)
    ensures
        r@ == label(
            colour,
            match v {
                Some(s) => Some(s@),
                None => None,
            },
        ),
{
    match v {
        Some(n) => paint(colour, true, n.as_str()),
        None => paint(colour, false, "none"),
    }
}

fn object_label_exec(o: &KObj) -> (r: String)
    ensures
        r@ == object_label(o@),
{
    match o {
        KObj::Empty => paint(Colour::Yellow, false, "none"),
        KObj::Pod { name, .. } => paint(Colour::Yellow, true, name.as_str()),
        KObj::Node(n) => paint(Colour::Blue, true, n.as_str()),
        KObj::Deployment(n) => paint(Colour::Purple, true, n.as_str()),
        KObj::Service(n) => paint(Colour::Cyan, true, n.as_str()),
        KObj::ReplicaSet(n) => paint(Colour::Green, true, n.as_str()),
        KObj::StatefulSet(n) => paint(Colour::Green, true, n.as_str()),
        KObj::ConfigMap(n) => paint(Colour::Black, true, n.as_str()),
        KObj::Secret(n) => paint(Colour::Red, true, n.as_str()),
        KObj::Job(n) => paint(Colour::Purple, true, n.as_str()),
    }
}

/// Renders the prompt from the session's cluster name, namespace and selected object.
pub(crate) fn make_prompt(cluster: Option<&String>, namespace: Option<&String>, obj: &KObj) -> (r:
    String)
    ensures
        r@ == prompt_of(
            match cluster {
                Some(s) => Some(s@),
                None => None,
            },
            match namespace {
                Some(s) => Some(s@),
                None => None,
            },
            obj@,
        ),
{
    let mut s = String::from_str("[");
    let c = label_exec(Colour::Red, cluster);
    s.append(c.as_str());
    s.append("] [");
    let n = label_exec(Colour::Green, namespace);
    s.append(n.as_str());
    s.append("] [");
    let o = object_label_exec(obj);
    s.append(o.as_str());
    s.append("] > ");
    s
}

} // verus!
