//! The syntax tree.

use vstd::prelude::*;
use crate::scanner::Type;
use crate::utils::{decimal, decimal_text, pad_number, padded};

verus! {

/// A prefix operator.
#[derive(Clone, Copy, Debug, PartialEq, Eq, Structural)]
pub enum UnaryOperator {
    Bang,
    Minus,
}

impl UnaryOperator {
    /// The operator that a token of kind `ty` stands for in front of an
    /// operand, if it stands for one.
    pub open spec fn of(ty: Type) -> Option<UnaryOperator> {
        match ty {
            Type::Bang => Some(UnaryOperator::Bang),
            Type::Minus => Some(UnaryOperator::Minus),
            _ => None,
        }
    }

    /// The operator that a token of kind `value` stands for in front of an
    /// operand; `None` for every kind but `Bang` and `Minus`.
    pub fn from(value: Type) -> (operator: Option<UnaryOperator>)
        ensures
            operator == Self::of(value),
    {
        match value {
            Type::Bang => Some(UnaryOperator::Bang),
            Type::Minus => Some(UnaryOperator::Minus),
            _ => None,
        }
    }

    /// The operator as written.
    pub open spec fn symbol(self) -> Seq<char> {
        match self {
            UnaryOperator::Bang => "!"@,
            UnaryOperator::Minus => "-"@,
        }
    }

    /// The operator as written.
    pub fn to_string(&self) -> (text: String)
        ensures
            text@ == self.symbol(),
    {
        match self {
            UnaryOperator::Bang => String::from_str("!"),
            UnaryOperator::Minus => String::from_str("-"),
        }
    }
}

/// An infix operator of arithmetic or comparison.
#[derive(Clone, Copy, Debug, PartialEq, Eq, Structural)]
pub enum BinaryOperator {
    BangEqual,
    EqualEqual,
    Less,
    LessEqual,
    Greater,
    GreaterEqual,
    Star,
    Plus,
    Minus,
    Slash,
}

impl BinaryOperator {
    /// The operator that a token of kind `ty` stands for between two
    /// operands, if it stands for one.
    pub open spec fn of(ty: Type) -> Option<BinaryOperator> {
        match ty {
            Type::BangEqual => Some(BinaryOperator::BangEqual),
            Type::EqualEqual => Some(BinaryOperator::EqualEqual),
            Type::Less => Some(BinaryOperator::Less),
            Type::LessEqual => Some(BinaryOperator::LessEqual),
            Type::Greater => Some(BinaryOperator::Greater),
            Type::GreaterEqual => Some(BinaryOperator::GreaterEqual),
            Type::Star => Some(BinaryOperator::Star),
            Type::Plus => Some(BinaryOperator::Plus),
            Type::Minus => Some(BinaryOperator::Minus),
            Type::Slash => Some(BinaryOperator::Slash),
            _ => None,
        }
    }

    /// The operator that a token of kind `value` stands for between two
    /// operands; `None` for a kind that is no such operator.
    pub fn from(value: Type) -> (operator: Option<BinaryOperator>)
        ensures
            operator == Self::of(value),
    {
        match value {
            Type::BangEqual => Some(BinaryOperator::BangEqual),
            Type::EqualEqual => Some(BinaryOperator::EqualEqual),
            Type::Less => Some(BinaryOperator::Less),
            Type::LessEqual => Some(BinaryOperator::LessEqual),
            Type::Greater => Some(BinaryOperator::Greater),
            Type::GreaterEqual => Some(BinaryOperator::GreaterEqual),
            Type::Star => Some(BinaryOperator::Star),
            Type::Plus => Some(BinaryOperator::Plus),
            Type::Minus => Some(BinaryOperator::Minus),
            Type::Slash => Some(BinaryOperator::Slash),
            _ => None,
        }
    }

    /// The operator as written.
    pub open spec fn symbol(self) -> Seq<char> {
        match self {
            BinaryOperator::BangEqual => "!="@,
            BinaryOperator::EqualEqual => "=="@,
            BinaryOperator::Less => "<"@,
            BinaryOperator::LessEqual => "<="@,
            BinaryOperator::Greater => ">"@,
            BinaryOperator::GreaterEqual => ">="@,
            BinaryOperator::Star => "*"@,
            BinaryOperator::Plus => "+"@,
            BinaryOperator::Minus => "-"@,
            BinaryOperator::Slash => "/"@,
        }
    }

    /// The operator as written.
    pub fn to_string(&self) -> (text: String)
        ensures
            text@ == self.symbol(),
    {
        match self {
            BinaryOperator::BangEqual => String::from_str("!="),
            BinaryOperator::EqualEqual => String::from_str("=="),
            BinaryOperator::Less => String::from_str("<"),
            BinaryOperator::LessEqual => String::from_str("<="),
            BinaryOperator::Greater => String::from_str(">"),
            BinaryOperator::GreaterEqual => String::from_str(">="),
            BinaryOperator::Star => String::from_str("*"),
            BinaryOperator::Plus => String::from_str("+"),
            BinaryOperator::Minus => String::from_str("-"),
            BinaryOperator::Slash => String::from_str("/"),
        }
    }
}

/// A node of the syntax tree: an expression or a statement.
///
/// A number is kept as text: `Number(written, shown)` holds the literal as
/// the source wrote it, from which its value is taken, and the text under
/// which it is displayed.
#[derive(Debug)]
pub enum Expr {
    True,
    False,
    Nil,
    String(String),
    Number(String, String),
    Unary(UnaryOperator, Box<Expr>),
    Binary(BinaryOperator, Box<Expr>, Box<Expr>),
    Grouping(Box<Expr>),
    Identifier(String),
    /// The name, the value, and whether this declares the name.
    Assignment(String, Box<Expr>, bool),
    Print(Box<Expr>),
    Semicolon,
    Statements(Vec<Expr>),
    IfElse(Box<Expr>, Box<Expr>, Option<Box<Expr>>),
    Or(Box<Expr>, Box<Expr>),
    And(Box<Expr>, Box<Expr>),
    While(Box<Expr>, Box<Expr>),
    /// Initialiser, condition, increment, and body.
    For(Option<Box<Expr>>, Option<Box<Expr>>, Option<Box<Expr>>, Box<Expr>),
    /// The name called, and one list of arguments for each call in the chain.
    Callable(String, Vec<Vec<Expr>>),
    /// The name, the parameters, and the body.
    Fun(String, Vec<String>, Box<Expr>),
    Return(Box<Expr>),
}

/// A syntax tree as a mathematical value.
pub enum ExprView {
    True,
    False,
    Nil,
    String(Seq<char>),
    Number(Seq<char>, Seq<char>),
    Unary(UnaryOperator, Box<ExprView>),
    Binary(BinaryOperator, Box<ExprView>, Box<ExprView>),
    Grouping(Box<ExprView>),
    Identifier(Seq<char>),
    Assignment(Seq<char>, Box<ExprView>, bool),
    Print(Box<ExprView>),
    Semicolon,
    Statements(Seq<ExprView>),
    IfElse(Box<ExprView>, Box<ExprView>, Option<Box<ExprView>>),
    Or(Box<ExprView>, Box<ExprView>),
    And(Box<ExprView>, Box<ExprView>),
    While(Box<ExprView>, Box<ExprView>),
    For(Option<Box<ExprView>>, Option<Box<ExprView>>, Option<Box<ExprView>>, Box<ExprView>),
    Callable(Seq<char>, Seq<Seq<ExprView>>),
    Fun(Seq<char>, Seq<Seq<char>>, Box<ExprView>),
    Return(Box<ExprView>),
}

/// The views of a sequence of trees.
pub open spec fn views(exprs: Seq<Expr>) -> Seq<ExprView>
    decreases exprs, 0nat,
{
    if exprs.len() == 0 {
        Seq::empty()
    } else {
        views(exprs.drop_last()).push(tree_of(exprs.last()))
    }
}

/// The views of a sequence of sequences of trees.
pub open spec fn list_views(lists: Seq<Vec<Expr>>) -> Seq<Seq<ExprView>>
    decreases lists, 0nat,
{
    if lists.len() == 0 {
        Seq::empty()
    } else {
        list_views(lists.drop_last()).push(views(lists.last()@))
    }
}

/// The view of an optional subtree.
pub open spec fn optional_view(expr: Option<Box<Expr>>) -> Option<Box<ExprView>>
    decreases expr, 0nat,
{
    match expr {
        Some(expr) => Some(Box::new(tree_of(*expr))),
        None => None,
    }
}

/// The views of a sequence of strings.
pub open spec fn texts(strings: Seq<String>) -> Seq<Seq<char>> {
    strings.map_values(|s: String| s@)
}

/// The tree as a mathematical value.
pub open spec fn tree_of(expr: Expr) -> ExprView
    decreases expr, 1nat,
{
    match expr {
        Expr::True => ExprView::True,
        Expr::False => ExprView::False,
        Expr::Nil => ExprView::Nil,
        Expr::String(s) => ExprView::String(s@),
        Expr::Number(written, shown) => ExprView::Number(written@, shown@),
        Expr::Unary(op, e) => ExprView::Unary(op, Box::new(tree_of(*e))),
        Expr::Binary(op, l, r) => ExprView::Binary(
            op,
            Box::new(tree_of(*l)),
            Box::new(tree_of(*r)),
        ),
        Expr::Grouping(e) => ExprView::Grouping(Box::new(tree_of(*e))),
        Expr::Identifier(name) => ExprView::Identifier(name@),
        Expr::Assignment(name, e, declares) => ExprView::Assignment(
            name@,
            Box::new(tree_of(*e)),
            declares,
        ),
        Expr::Print(e) => ExprView::Print(Box::new(tree_of(*e))),
        Expr::Semicolon => ExprView::Semicolon,
        Expr::Statements(exprs) => ExprView::Statements(views(exprs@)),
        Expr::IfElse(c, t, e) => ExprView::IfElse(
            Box::new(tree_of(*c)),
            Box::new(tree_of(*t)),
            optional_view(e),
        ),
        Expr::Or(l, r) => ExprView::Or(Box::new(tree_of(*l)), Box::new(tree_of(*r))),
        Expr::And(l, r) => ExprView::And(Box::new(tree_of(*l)), Box::new(tree_of(*r))),
        Expr::While(c, b) => ExprView::While(Box::new(tree_of(*c)), Box::new(tree_of(*b))),
        Expr::For(i, c, n, b) => ExprView::For(
            optional_view(i),
            optional_view(c),
            optional_view(n),
            Box::new(tree_of(*b)),
        ),
        Expr::Callable(name, lists) => ExprView::Callable(name@, list_views(lists@)),
        Expr::Fun(name, params, body) => ExprView::Fun(
            name@,
            texts(params@),
            Box::new(tree_of(*body)),
        ),
        Expr::Return(e) => ExprView::Return(Box::new(tree_of(*e))),
    }
}

impl View for Expr {
    type V = ExprView;

    open spec fn view(&self) -> ExprView {
        tree_of(*self)
    }
}

/// The text of an optional subtree: nothing where there is none.
pub open spec fn optional_shown(tree: Option<Box<ExprView>>) -> Seq<char>
    decreases tree, 0nat,
{
    match tree {
        Some(tree) => shown(*tree),
        None => Seq::empty(),
    }
}

/// How a tree is displayed for diagnostics.
///
/// A number shows its display text with a decimal point in every case; a
/// block shows the count of its statements; a call, a function and a
/// `return` show no more than their name.
pub open spec fn shown(tree: ExprView) -> Seq<char>
    decreases tree, 1nat,
{
    match tree {
        ExprView::True => "true"@,
        ExprView::False => "false"@,
        ExprView::Nil => "nil"@,
        ExprView::Number(_, text) => padded(text),
        ExprView::String(text) => text,
        ExprView::Grouping(e) => "(group "@ + shown(*e) + ")"@,
        ExprView::Unary(op, e) => "("@ + op.symbol() + " "@ + shown(*e) + ")"@,
        ExprView::Binary(op, l, r) => "("@ + op.symbol() + " "@ + shown(*l) + " "@ + shown(*r)
            + ")"@,
        ExprView::Identifier(name) => "identifier "@ + name,
        ExprView::Assignment(name, e, _) => "assignment "@ + name + " = "@ + shown(*e),
        ExprView::Print(e) => "print "@ + shown(*e),
        ExprView::Semicolon => "semicolon"@,
        ExprView::Statements(exprs) => "statements "@ + decimal_text(exprs.len()),
        ExprView::IfElse(c, t, _) => "if "@ + shown(*c) + " then "@ + shown(*t),
        ExprView::Or(l, r) => shown(*l) + " or "@ + shown(*r),
        ExprView::And(l, r) => shown(*l) + " and "@ + shown(*r),
        ExprView::While(c, b) => "while ("@ + shown(*c) + ") "@ + shown(*b),
        ExprView::For(i, c, n, b) => "for ("@ + optional_shown(i) + ";"@ + optional_shown(c)
            + ";"@ + optional_shown(n) + ") "@ + shown(*b),
        ExprView::Callable(name, _) => "callbale "@ + name,
        ExprView::Fun(name, _, _) => "fun "@ + name,
        ExprView::Return(_) => "return"@,
    }
}

/// The sequence of views has the length of the sequence.
pub proof fn views_len(exprs: Seq<Expr>)
    ensures
        views(exprs).len() == exprs.len(),
    decreases exprs.len(),
{
    if exprs.len() > 0 {
        views_len(exprs.drop_last());
    }
}

fn optional_to_string(expr: &Option<Box<Expr>>) -> (text: String)
    ensures
        text@ == optional_shown(optional_view(*expr)),
    decreases expr, 0nat,
{
    match expr {
        Some(expr) => expr.to_string(),
        None => String::new(),
    }
}

impl Expr {
    /// The tree as displayed for diagnostics.
    pub fn to_string(&self) -> (text: String)
        ensures
            text@ == shown(self@),
        decreases self, 1nat,
    {
        match self {
            Expr::True => String::from_str("true"),
            Expr::False => String::from_str("false"),
            Expr::Nil => String::from_str("nil"),
            Expr::Number(_, text) => pad_number(text.as_str()),
            Expr::String(text) => text.clone(),
            Expr::Grouping(e) => {
                let mut text = String::from_str("(group ");
                text.append(e.to_string().as_str());
                text.append(")");
                text
            },
            Expr::Unary(op, e) => {
                let mut text = String::from_str("(");
                text.append(op.to_string().as_str());
                text.append(" ");
                text.append(e.to_string().as_str());
                text.append(")");
                text
            },
            Expr::Binary(op, l, r) => {
                let mut text = String::from_str("(");
                text.append(op.to_string().as_str());
                text.append(" ");
                text.append(l.to_string().as_str());
                text.append(" ");
                text.append(r.to_string().as_str());
                text.append(")");
                text
            },
            Expr::Identifier(name) => {
                let mut text = String::from_str("identifier ");
                text.append(name.as_str());
                text
            },
            Expr::Assignment(name, e, _) => {
                let mut text = String::from_str("assignment ");
                text.append(name.as_str());
                text.append(" = ");
                text.append(e.to_string().as_str());
                text
            },
            Expr::Print(e) => {
                let mut text = String::from_str("print ");
                text.append(e.to_string().as_str());
                text
            },
            Expr::Semicolon => String::from_str("semicolon"),
            Expr::Statements(exprs) => {
                proof {
                    views_len(exprs@);
                }
                let mut text = String::from_str("statements ");
                text.append(decimal(exprs.len()).as_str());
                text
            },
            Expr::IfElse(c, t, _) => {
                let mut text = String::from_str("if ");
                text.append(c.to_string().as_str());
                text.append(" then ");
                text.append(t.to_string().as_str());
                text
            },
            Expr::Or(l, r) => {
                let mut text = l.to_string();
                text.append(" or ");
                text.append(r.to_string().as_str());
                text
            },
            Expr::And(l, r) => {
                let mut text = l.to_string();
                text.append(" and ");
                text.append(r.to_string().as_str());
                text
            },
            Expr::While(c, b) => {
                let mut text = String::from_str("while (");
                text.append(c.to_string().as_str());
                text.append(") ");
                text.append(b.to_string().as_str());
                text
            },
            Expr::For(i, c, n, b) => {
                let mut text = String::from_str("for (");
                text.append(optional_to_string(i).as_str());
                text.append(";");
                text.append(optional_to_string(c).as_str());
                text.append(";");
                text.append(optional_to_string(n).as_str());
                text.append(") ");
                text.append(b.to_string().as_str());
                text
            },
            Expr::Callable(name, _) => {
                let mut text = String::from_str("callbale ");
                text.append(name.as_str());
                text
            },
            Expr::Fun(name, _, _) => {
                let mut text = String::from_str("fun ");
                text.append(name.as_str());
                text
            },
            Expr::Return(_) => String::from_str("return"),
        }
    }
}

/// The view of a sequence with one more tree is the view of the sequence
/// with one more view.
pub proof fn views_push(exprs: Seq<Expr>, expr: Expr)
    ensures
        views(exprs.push(expr)) == views(exprs).push(expr@),
{
    assert(exprs.push(expr).drop_last() =~= exprs);
}

/// The view of a sequence of trees holds the view of each tree at its place.
pub proof fn views_index(exprs: Seq<Expr>, i: int)
    requires
        0 <= i < exprs.len(),
    ensures
        views(exprs).len() == exprs.len(),
        views(exprs)[i] == exprs[i]@,
    decreases exprs.len(),
{
    views_len(exprs);
    views_len(exprs.drop_last());
    if i < exprs.len() - 1 {
        views_index(exprs.drop_last(), i);
    }
}

/// The view of a sequence of lists with one more list is the view of the
/// sequence with the view of that list behind it.
pub proof fn list_views_push(lists: Seq<Vec<Expr>>, list: Vec<Expr>)
    ensures
        list_views(lists.push(list)) == list_views(lists).push(views(list@)),
{
    assert(lists.push(list).drop_last() =~= lists);
}

} // verus!
