// ---------------------------------------------------------------------------
// Test support: the derive's output is read back and run with bpaf, on values of
// one dynamic type that converts into the test's own types.
// ---------------------------------------------------------------------------
#![allow(dead_code, unused_imports, unused_variables, unused_mut, non_snake_case)]
use bpaf::{Args, OptionParser, ParseFailure, Parser};
use bpaf_unsynn::emit::derive_code;
use bpaf_unsynn::tokens::{Delim, Tok};
use proc_macro2::{Delimiter, Spacing, TokenStream, TokenTree};
use std::collections::HashMap;
use std::rc::Rc;

#[derive(Clone)]
pub enum V {
    Unit,
    Bool(bool),
    Int(i128),
    Float(f64),
    Char(char),
    Str(String),
    Opt(Option<Box<V>>),
    List(Vec<V>),
    /// a struct, an enum variant or a unit variant: name, then fields; tuple fields are named by position
    Node(String, Vec<(String, V)>, bool),
}

impl std::fmt::Debug for V {
    fn fmt(&self, f: &mut std::fmt::Formatter<'_>) -> std::fmt::Result {
        match self {
            V::Unit => f.write_str("()"),
            V::Bool(b) => f.write_str(&format!("{:?}", b)),
            V::Int(i) => f.write_str(&format!("{:?}", i)),
            V::Float(x) => f.write_str(&format!("{:?}", x)),
            V::Char(c) => f.write_str(&format!("{:?}", c)),
            V::Str(s) => f.write_str(&format!("{:?}", s)),
            V::Opt(None) => f.write_str("None"),
            V::Opt(Some(v)) => f.debug_tuple("Some").field(v).finish(),
            V::List(vs) => f.debug_list().entries(vs.iter()).finish(),
            V::Node(n, fs, tuple) => {
                if fs.is_empty() {
                    f.write_str(n)
                } else if *tuple {
                    let mut t = f.debug_tuple(n);
                    for (_, v) in fs {
                        t.field(v);
                    }
                    t.finish()
                } else {
                    let mut t = f.debug_struct(n);
                    for (k, v) in fs {
                        t.field(k, v);
                    }
                    t.finish()
                }
            }
        }
    }
}

impl std::fmt::Display for V {
    fn fmt(&self, f: &mut std::fmt::Formatter<'_>) -> std::fmt::Result {
        match self {
            V::Unit => f.write_str("()"),
            V::Bool(b) => f.write_str(&format!("{}", b)),
            V::Int(i) => f.write_str(&format!("{}", i)),
            V::Float(x) => f.write_str(&format!("{}", x)),
            V::Char(c) => f.write_str(&format!("{}", c)),
            V::Str(s) => f.write_str(s),
            other => f.write_str(&format!("{:?}", other)),
        }
    }
}

impl V {
    pub fn field(&self, name: &str) -> &V {
        match self {
            V::Node(_, fs, _) => {
                for (k, v) in fs {
                    if k == name {
                        return v;
                    }
                }
                panic!("no field {} in {:?}", name, self)
            }
            _ => panic!("no field {} in {:?}", name, self),
        }
    }
    pub fn name(&self) -> &str {
        match self {
            V::Node(n, _, _) => n.as_str(),
            V::Str(s) => s.as_str(),
            _ => panic!("not a variant: {:?}", self),
        }
    }
}

pub trait FromV: Sized {
    fn from_v(v: &V) -> Self;
}
pub trait ToV {
    fn to_v(self) -> V;
}

impl FromV for i8 {
    fn from_v(v: &V) -> Self {
        match v {
            V::Int(i) => *i as i8,
            V::Str(s) => s.parse().unwrap(),
            V::Bool(b) => *b as i8,
            _ => panic!("expected a number, got {:?}", v),
        }
    }
}
impl ToV for i8 {
    fn to_v(self) -> V {
        V::Int(self as i128)
    }
}
impl FromV for i16 {
    fn from_v(v: &V) -> Self {
        match v {
            V::Int(i) => *i as i16,
            V::Str(s) => s.parse().unwrap(),
            V::Bool(b) => *b as i16,
            _ => panic!("expected a number, got {:?}", v),
        }
    }
}
impl ToV for i16 {
    fn to_v(self) -> V {
        V::Int(self as i128)
    }
}
impl FromV for i32 {
    fn from_v(v: &V) -> Self {
        match v {
            V::Int(i) => *i as i32,
            V::Str(s) => s.parse().unwrap(),
            V::Bool(b) => *b as i32,
            _ => panic!("expected a number, got {:?}", v),
        }
    }
}
impl ToV for i32 {
    fn to_v(self) -> V {
        V::Int(self as i128)
    }
}
impl FromV for i64 {
    fn from_v(v: &V) -> Self {
        match v {
            V::Int(i) => *i as i64,
            V::Str(s) => s.parse().unwrap(),
            V::Bool(b) => *b as i64,
            _ => panic!("expected a number, got {:?}", v),
        }
    }
}
impl ToV for i64 {
    fn to_v(self) -> V {
        V::Int(self as i128)
    }
}
impl FromV for i128 {
    fn from_v(v: &V) -> Self {
        match v {
            V::Int(i) => *i as i128,
            V::Str(s) => s.parse().unwrap(),
            V::Bool(b) => *b as i128,
            _ => panic!("expected a number, got {:?}", v),
        }
    }
}
impl ToV for i128 {
    fn to_v(self) -> V {
        V::Int(self as i128)
    }
}
impl FromV for isize {
    fn from_v(v: &V) -> Self {
        match v {
            V::Int(i) => *i as isize,
            V::Str(s) => s.parse().unwrap(),
            V::Bool(b) => *b as isize,
            _ => panic!("expected a number, got {:?}", v),
        }
    }
}
impl ToV for isize {
    fn to_v(self) -> V {
        V::Int(self as i128)
    }
}
impl FromV for u8 {
    fn from_v(v: &V) -> Self {
        match v {
            V::Int(i) => *i as u8,
            V::Str(s) => s.parse().unwrap(),
            V::Bool(b) => *b as u8,
            _ => panic!("expected a number, got {:?}", v),
        }
    }
}
impl ToV for u8 {
    fn to_v(self) -> V {
        V::Int(self as i128)
    }
}
impl FromV for u16 {
    fn from_v(v: &V) -> Self {
        match v {
            V::Int(i) => *i as u16,
            V::Str(s) => s.parse().unwrap(),
            V::Bool(b) => *b as u16,
            _ => panic!("expected a number, got {:?}", v),
        }
    }
}
impl ToV for u16 {
    fn to_v(self) -> V {
        V::Int(self as i128)
    }
}
impl FromV for u32 {
    fn from_v(v: &V) -> Self {
        match v {
            V::Int(i) => *i as u32,
            V::Str(s) => s.parse().unwrap(),
            V::Bool(b) => *b as u32,
            _ => panic!("expected a number, got {:?}", v),
        }
    }
}
impl ToV for u32 {
    fn to_v(self) -> V {
        V::Int(self as i128)
    }
}
impl FromV for u64 {
    fn from_v(v: &V) -> Self {
        match v {
            V::Int(i) => *i as u64,
            V::Str(s) => s.parse().unwrap(),
            V::Bool(b) => *b as u64,
            _ => panic!("expected a number, got {:?}", v),
        }
    }
}
impl ToV for u64 {
    fn to_v(self) -> V {
        V::Int(self as i128)
    }
}
impl FromV for u128 {
    fn from_v(v: &V) -> Self {
        match v {
            V::Int(i) => *i as u128,
            V::Str(s) => s.parse().unwrap(),
            V::Bool(b) => *b as u128,
            _ => panic!("expected a number, got {:?}", v),
        }
    }
}
impl ToV for u128 {
    fn to_v(self) -> V {
        V::Int(self as i128)
    }
}
impl FromV for usize {
    fn from_v(v: &V) -> Self {
        match v {
            V::Int(i) => *i as usize,
            V::Str(s) => s.parse().unwrap(),
            V::Bool(b) => *b as usize,
            _ => panic!("expected a number, got {:?}", v),
        }
    }
}
impl ToV for usize {
    fn to_v(self) -> V {
        V::Int(self as i128)
    }
}


impl FromV for f64 {
    fn from_v(v: &V) -> Self {
        match v {
            V::Float(x) => *x,
            V::Int(i) => *i as f64,
            _ => panic!("expected a number, got {:?}", v),
        }
    }
}
impl FromV for f32 {
    fn from_v(v: &V) -> Self {
        match v {
            V::Float(x) => *x as f32,
            V::Int(i) => *i as f32,
            _ => panic!("expected a number, got {:?}", v),
        }
    }
}
impl ToV for f64 {
    fn to_v(self) -> V {
        V::Float(self)
    }
}
impl ToV for f32 {
    fn to_v(self) -> V {
        V::Float(self as f64)
    }
}
impl FromV for bool {
    fn from_v(v: &V) -> Self {
        match v {
            V::Bool(b) => *b,
            _ => panic!("expected a bool, got {:?}", v),
        }
    }
}
impl ToV for bool {
    fn to_v(self) -> V {
        V::Bool(self)
    }
}
impl FromV for char {
    fn from_v(v: &V) -> Self {
        match v {
            V::Char(c) => *c,
            V::Str(s) if s.chars().count() == 1 => s.chars().next().unwrap(),
            _ => panic!("expected a char, got {:?}", v),
        }
    }
}
impl ToV for char {
    fn to_v(self) -> V {
        V::Char(self)
    }
}
impl FromV for String {
    fn from_v(v: &V) -> Self {
        match v {
            V::Str(s) => s.clone(),
            other => format!("{}", other),
        }
    }
}
impl ToV for String {
    fn to_v(self) -> V {
        V::Str(self)
    }
}
impl ToV for &str {
    fn to_v(self) -> V {
        V::Str(self.to_string())
    }
}
impl FromV for std::path::PathBuf {
    fn from_v(v: &V) -> Self {
        std::path::PathBuf::from(String::from_v(v))
    }
}
impl ToV for std::path::PathBuf {
    fn to_v(self) -> V {
        V::Str(self.to_string_lossy().into_owned())
    }
}
impl FromV for () {
    fn from_v(_v: &V) -> Self {}
}
impl ToV for () {
    fn to_v(self) -> V {
        V::Unit
    }
}
impl<T: FromV> FromV for Option<T> {
    fn from_v(v: &V) -> Self {
        match v {
            V::Opt(None) => None,
            V::Opt(Some(x)) => Some(T::from_v(x)),
            other => Some(T::from_v(other)),
        }
    }
}
impl<T: ToV> ToV for Option<T> {
    fn to_v(self) -> V {
        V::Opt(self.map(|x| Box::new(x.to_v())))
    }
}
impl<T: FromV> FromV for Vec<T> {
    fn from_v(v: &V) -> Self {
        match v {
            V::List(xs) => xs.iter().map(T::from_v).collect(),
            _ => panic!("expected a list, got {:?}", v),
        }
    }
}
impl<T: ToV> ToV for Vec<T> {
    fn to_v(self) -> V {
        V::List(self.into_iter().map(|x| x.to_v()).collect())
    }
}
impl<T: FromV> FromV for Box<T> {
    fn from_v(v: &V) -> Self {
        Box::new(T::from_v(v))
    }
}
impl<A: FromV, B: FromV> FromV for (A, B) {
    fn from_v(v: &V) -> Self {
        match v {
            V::Node(_, fs, _) if fs.len() == 2 => (A::from_v(&fs[0].1), B::from_v(&fs[1].1)),
            _ => panic!("expected a pair, got {:?}", v),
        }
    }
}
impl<A: ToV, B: ToV> ToV for (A, B) {
    fn to_v(self) -> V {
        V::Node(String::new(), vec![("0".into(), self.0.to_v()), ("1".into(), self.1.to_v())], true)
    }
}
impl FromV for V {
    fn from_v(v: &V) -> Self {
        v.clone()
    }
}
impl ToV for V {
    fn to_v(self) -> V {
        self
    }
}
impl<T: FromV + std::hash::Hash + Eq> FromV for std::collections::HashSet<T> {
    fn from_v(v: &V) -> Self {
        match v {
            V::List(xs) => xs.iter().map(T::from_v).collect(),
            _ => panic!("expected a set, got {:?}", v),
        }
    }
}
impl<T: ToV> ToV for std::collections::HashSet<T> {
    fn to_v(self) -> V {
        V::List(self.into_iter().map(|x| x.to_v()).collect())
    }
}
impl<K: FromV + std::hash::Hash + Eq, T: FromV> FromV for HashMap<K, T> {
    fn from_v(v: &V) -> Self {
        match v {
            V::List(xs) => xs.iter().map(|p| <(K, T)>::from_v(p)).collect(),
            _ => panic!("expected a map, got {:?}", v),
        }
    }
}
impl<K: ToV, T: ToV> ToV for HashMap<K, T> {
    fn to_v(self) -> V {
        V::List(self.into_iter().map(|p| p.to_v()).collect())
    }
}

fn leak(s: String) -> &'static str {
    Box::leak(s.into_boxed_str())
}

type Conv = Rc<dyn Fn(String) -> Result<V, String>>;

fn num_conv<T: std::str::FromStr + ToV + 'static>() -> Conv
where
    <T as std::str::FromStr>::Err: ToString,
{
    Rc::new(|s: String| s.parse::<T>().map(|x| x.to_v()).map_err(|e| e.to_string()))
}

/// What the test supplies for the expressions in its attributes.
#[derive(Default, Clone)]
pub struct Reg {
    vals: HashMap<String, V>,
    texts: HashMap<String, String>,
    maps: HashMap<String, Rc<dyn Fn(V) -> V>>,
    parses: HashMap<String, Rc<dyn Fn(V) -> Result<V, String>>>,
    guards: HashMap<String, Rc<dyn Fn(&V) -> bool>>,
    withs: HashMap<String, Rc<dyn Fn() -> Result<V, String>>>,
    externals: HashMap<String, Rc<dyn Fn() -> Box<dyn Parser<V>>>>,
    checks: HashMap<String, Rc<dyn Fn(String) -> Option<V>>>,
    types: HashMap<String, Conv>,
    completes: HashMap<String, Rc<dyn Fn(&V) -> Vec<(String, Option<String>)>>>,
    shells: HashMap<String, bpaf::ShellComp>,
    formats: HashMap<String, Rc<dyn Fn(&V, &mut std::fmt::Formatter<'_>) -> std::fmt::Result>>,
}

fn key(s: &str) -> String {
    s.chars().filter(|c| !c.is_whitespace()).collect()
}

impl Reg {
    pub fn val<T: ToV>(&mut self, k: &str, v: T) -> &mut Self {
        self.vals.insert(key(k), v.to_v());
        self
    }
    pub fn text(&mut self, k: &str, v: impl ToString) -> &mut Self {
        self.texts.insert(key(k), v.to_string());
        self
    }
    pub fn map<A: FromV, B: ToV>(&mut self, k: &str, f: impl Fn(A) -> B + 'static) -> &mut Self {
        self.maps.insert(key(k), Rc::new(move |v: V| f(A::from_v(&v)).to_v()));
        self
    }
    pub fn parse<A: FromV, B: ToV, E: ToString>(
        &mut self,
        k: &str,
        f: impl Fn(A) -> Result<B, E> + 'static,
    ) -> &mut Self {
        self.parses.insert(
            key(k),
            Rc::new(move |v: V| f(A::from_v(&v)).map(|b| b.to_v()).map_err(|e| e.to_string())),
        );
        self
    }
    pub fn guard<A: FromV>(&mut self, k: &str, f: impl Fn(&A) -> bool + 'static) -> &mut Self {
        self.guards.insert(key(k), Rc::new(move |v: &V| f(&A::from_v(v))));
        self
    }
    pub fn with<B: ToV, E: ToString>(
        &mut self,
        k: &str,
        f: impl Fn() -> Result<B, E> + 'static,
    ) -> &mut Self {
        self.withs.insert(key(k), Rc::new(move || f().map(|b| b.to_v()).map_err(|e| e.to_string())));
        self
    }
    pub fn external(&mut self, k: &str, f: impl Fn() -> Box<dyn Parser<V>> + 'static) -> &mut Self {
        self.externals.insert(key(k), Rc::new(f));
        self
    }
    pub fn check<A: std::str::FromStr, B: ToV>(
        &mut self,
        k: &str,
        f: impl Fn(A) -> Option<B> + 'static,
    ) -> &mut Self {
        self.checks.insert(
            key(k),
            Rc::new(move |s: String| s.parse::<A>().ok().and_then(|a| f(a)).map(|b| b.to_v())),
        );
        self
    }
    pub fn ty<A: std::str::FromStr + ToV>(&mut self, k: &str) -> &mut Self
    where
        <A as std::str::FromStr>::Err: ToString,
    {
        self.types.insert(key(k), Rc::new(|s: String| s.parse::<A>().map(|a| a.to_v()).map_err(|e| e.to_string())));
        self
    }
    pub fn complete<A: FromV, M: Into<String>>(
        &mut self,
        k: &str,
        f: impl Fn(&A) -> Vec<(M, Option<M>)> + 'static,
    ) -> &mut Self {
        self.completes.insert(
            key(k),
            Rc::new(move |v: &V| {
                f(&A::from_v(v)).into_iter().map(|(a, b)| (a.into(), b.map(|b| b.into()))).collect()
            }),
        );
        self
    }
    pub fn shell(&mut self, k: &str, s: bpaf::ShellComp) -> &mut Self {
        self.shells.insert(key(k), s);
        self
    }
    pub fn format<A: FromV>(
        &mut self,
        k: &str,
        f: impl Fn(&A, &mut std::fmt::Formatter<'_>) -> std::fmt::Result + 'static,
    ) -> &mut Self {
        self.formats.insert(key(k), Rc::new(move |v: &V, fm: &mut std::fmt::Formatter<'_>| f(&A::from_v(v), fm)));
        self
    }
}

fn to_tok(tt: TokenTree) -> Tok {
    match tt {
        TokenTree::Ident(i) => Tok::Ident(i.to_string()),
        TokenTree::Punct(p) => Tok::Punct(p.as_char(), p.spacing() == Spacing::Joint),
        TokenTree::Literal(l) => Tok::Lit(l.to_string()),
        TokenTree::Group(g) => {
            let d = match g.delimiter() {
                Delimiter::Parenthesis => Delim::Paren,
                Delimiter::Bracket => Delim::Bracket,
                Delimiter::Brace => Delim::Brace,
                Delimiter::None => Delim::Invisible,
            };
            Tok::Group(d, g.stream().into_iter().map(to_tok).collect())
        }
    }
}

/// The code the derive produces for the item written in `src`.
pub fn derive_text(src: &str) -> String {
    let ts: TokenStream = src.parse().expect("the test source lexes");
    let toks: Vec<Tok> = ts.into_iter().map(to_tok).collect();
    derive_code(&toks)
}

fn text(ts: &[TokenTree]) -> String {
    ts.iter().cloned().collect::<TokenStream>().to_string()
}

fn is_punct(t: &TokenTree, c: char) -> bool {
    matches!(t, TokenTree::Punct(p) if p.as_char() == c)
}

fn is_ident(t: &TokenTree, w: &str) -> bool {
    matches!(t, TokenTree::Ident(i) if i.to_string() == w)
}

fn split_commas(ts: &[TokenTree]) -> Vec<Vec<TokenTree>> {
    let mut out = vec![];
    let mut cur = vec![];
    let mut depth = 0i32;
    let mut in_closure = false;
    for t in ts {
        if is_punct(t, ',') && depth == 0 {
            out.push(std::mem::take(&mut cur));
            continue;
        }
        cur.push(t.clone());
    }
    if !cur.is_empty() {
        out.push(cur);
    }
    out
}

fn unescape(lit: &str) -> String {
    let inner = &lit[1..lit.len() - 1];
    let mut out = String::new();
    let mut it = inner.chars();
    while let Some(c) = it.next() {
        if c == '\\' {
            match it.next() {
                Some('n') => out.push('\n'),
                Some('t') => out.push('\t'),
                Some('r') => out.push('\r'),
                Some('0') => out.push('\0'),
                Some(o) => out.push(o),
                None => {}
            }
        } else {
            out.push(c);
        }
    }
    out
}

fn lit_str(ts: &[TokenTree]) -> Option<String> {
    if ts.len() == 1 {
        if let TokenTree::Literal(l) = &ts[0] {
            let s = l.to_string();
            if s.starts_with('"') {
                return Some(unescape(&s));
            }
            if s.starts_with("r#\"") || s.starts_with("r\"") {
                let a = s.find('"').unwrap();
                let b = s.rfind('"').unwrap();
                return Some(s[a + 1..b].to_string());
            }
        }
    }
    None
}

pub struct Interp {
    reg: Reg,
    b: Vec<TokenTree>,
    env: HashMap<String, Rc<dyn Fn() -> Box<dyn Parser<V>>>>,
}

fn int_lit(s: &str) -> Option<V> {
    let digits: String = s.chars().take_while(|c| c.is_ascii_digit() || *c == '_').filter(|c| *c != '_').collect();
    let rest = &s[s.chars().take_while(|c| c.is_ascii_digit() || *c == '_').count()..];
    if digits.is_empty() {
        return None;
    }
    if rest.is_empty() || rest.starts_with('u') || rest.starts_with('i') {
        return Some(V::Int(digits.parse().ok()?));
    }
    if rest.starts_with('.') || rest.starts_with('e') || rest.starts_with('f') {
        let num: String = s.trim_end_matches("f64").trim_end_matches("f32").replace('_', "");
        return Some(V::Float(num.parse().ok()?));
    }
    None
}

impl Interp {
    /// The value of a plain expression: literals, paths, `Some`, `vec!`, string
    /// constructors; anything else the test registers by its text.
    pub fn value(&self, ts: &[TokenTree]) -> V {
        let k = key(&text(ts));
        if let Some(v) = self.reg.vals.get(&k) {
            return v.clone();
        }
        if let Some(s) = lit_str(ts) {
            return V::Str(s);
        }
        if ts.len() == 1 {
            match &ts[0] {
                TokenTree::Literal(l) => {
                    let s = l.to_string();
                    if s.starts_with('\'') {
                        return V::Char(unescape(&s).chars().next().unwrap());
                    }
                    if let Some(v) = int_lit(&s) {
                        return v;
                    }
                }
                TokenTree::Ident(i) => {
                    let s = i.to_string();
                    if s == "true" {
                        return V::Bool(true);
                    }
                    if s == "false" {
                        return V::Bool(false);
                    }
                    if s == "None" {
                        return V::Opt(None);
                    }
                }
                TokenTree::Group(g) if g.delimiter() == Delimiter::Parenthesis => {
                    let inner: Vec<TokenTree> = g.stream().into_iter().collect();
                    if inner.is_empty() {
                        return V::Unit;
                    }
                    let parts = split_commas(&inner);
                    if parts.len() == 1 {
                        return self.value(&parts[0]);
                    }
                    return V::Node(
                        String::new(),
                        parts.iter().enumerate().map(|(i, p)| (i.to_string(), self.value(p))).collect(),
                        true,
                    );
                }
                _ => {}
            }
        }
        if ts.len() == 2 && is_punct(&ts[0], '-') {
            if let TokenTree::Literal(l) = &ts[1] {
                match int_lit(&l.to_string()) {
                    Some(V::Int(i)) => return V::Int(-i),
                    Some(V::Float(x)) => return V::Float(-x),
                    _ => {}
                }
            }
        }
        // method calls on a literal: "x".to_string(), "x".into(), "x".to_owned(), "x".parse().unwrap()
        if ts.len() >= 3 && is_punct(&ts[1], '.') {
            if let Some(s) = lit_str(&ts[..1]) {
                return V::Str(s);
            }
        }
        // Some(x)
        if ts.len() == 2 && is_ident(&ts[0], "Some") {
            if let TokenTree::Group(g) = &ts[1] {
                let inner: Vec<TokenTree> = g.stream().into_iter().collect();
                return V::Opt(Some(Box::new(self.value(&inner))));
            }
        }
        // vec![..]
        if ts.len() == 3 && is_ident(&ts[0], "vec") && is_punct(&ts[1], '!') {
            if let TokenTree::Group(g) = &ts[2] {
                let inner: Vec<TokenTree> = g.stream().into_iter().collect();
                return V::List(split_commas(&inner).iter().map(|p| self.value(p)).collect());
            }
        }
        // paths, calls of paths, struct literals of paths
        let mut i = 0;
        let mut segs: Vec<String> = vec![];
        while i < ts.len() {
            match &ts[i] {
                TokenTree::Ident(id) => {
                    segs.push(id.to_string());
                    i += 1;
                }
                TokenTree::Punct(p) if p.as_char() == ':' => i += 1,
                _ => break,
            }
        }
        if !segs.is_empty() {
            let last = segs.last().unwrap().clone();
            if i == ts.len() {
                return V::Node(last, vec![], false);
            }
            if i + 1 == ts.len() {
                if let TokenTree::Group(g) = &ts[i] {
                    let inner: Vec<TokenTree> = g.stream().into_iter().collect();
                    let parts = split_commas(&inner);
                    if last == "from" || last == "new" {
                        if parts.is_empty() {
                            return V::Str(String::new());
                        }
                        return self.value(&parts[0]);
                    }
                    if g.delimiter() == Delimiter::Parenthesis {
                        return V::Node(
                            last,
                            parts.iter().enumerate().map(|(i, p)| (i.to_string(), self.value(p))).collect(),
                            true,
                        );
                    }
                    if g.delimiter() == Delimiter::Brace {
                        let mut fs = vec![];
                        for p in parts {
                            let name = p[0].to_string();
                            fs.push((name, self.value(&p[2..])));
                        }
                        return V::Node(last, fs, false);
                    }
                }
            }
        }
        panic!("the test registers no value for `{}`", text(ts))
    }

    fn text_arg(&self, ts: &[TokenTree]) -> String {
        if let Some(s) = lit_str(ts) {
            return s;
        }
        let k = key(&text(ts));
        if let Some(t) = self.reg.texts.get(&k) {
            return t.clone();
        }
        if let Some(v) = self.reg.vals.get(&k) {
            return String::from_v(v);
        }
        panic!("the test registers no text for `{}`", text(ts))
    }

    fn conv(&self, ty: &[TokenTree]) -> Conv {
        let t = key(&text(ty));
        if let Some(c) = self.reg.types.get(&t) {
            return c.clone();
        }
        let last = t.rsplit("::").next().unwrap().to_string();
        match last.as_str() {
            "String" | "PathBuf" => Rc::new(|s: String| Ok(V::Str(s))),
            "u8" => num_conv::<u8>(),
            "u16" => num_conv::<u16>(),
            "u32" => num_conv::<u32>(),
            "u64" => num_conv::<u64>(),
            "u128" => num_conv::<u128>(),
            "usize" => num_conv::<usize>(),
            "i8" => num_conv::<i8>(),
            "i16" => num_conv::<i16>(),
            "i32" => num_conv::<i32>(),
            "i64" => num_conv::<i64>(),
            "i128" => num_conv::<i128>(),
            "isize" => num_conv::<isize>(),
            "f32" => num_conv::<f32>(),
            "f64" => num_conv::<f64>(),
            "char" => num_conv::<char>(),
            "bool" => num_conv::<bool>(),
            _ => panic!("the test registers no type `{}`", t),
        }
    }
}

/// A parser under construction, kept at the bpaf type its next methods need.
pub enum Node {
    Named(bpaf::parsers::NamedArg),
    Arg(bpaf::parsers::ParseArgument<String>, Conv),
    Pos(bpaf::parsers::ParsePositional<String>, Conv),
    Any(bpaf::parsers::ParseAny<V>),
    Flag(bpaf::parsers::ParseFlag<V>),
    Many(bpaf::parsers::ParseMany<Box<dyn Parser<V>>>),
    Opt(bpaf::parsers::ParseOptional<Box<dyn Parser<V>>>),
    Some_(bpaf::parsers::ParseSome<Box<dyn Parser<V>>>),
    Fallback(bpaf::parsers::ParseFallback<Box<dyn Parser<V>>, V>),
    Con(bpaf::ParseCon<Box<dyn Fn(bool, &mut bpaf::State) -> Result<V, bpaf::Error>>>),
    Comp(Box<dyn Parser<V>>, Option<Box<dyn Fn(Box<dyn Parser<V>>, String) -> Box<dyn Parser<V>>>>),
    P(Box<dyn Parser<V>>),
    Opts(OptionParser<V>),
    Cmd(bpaf::parsers::ParseCommand<V>),
}

fn boxed<P: Parser<V> + 'static>(p: P) -> Box<dyn Parser<V>> {
    Box::new(p)
}

impl Node {
    fn into_p(self) -> Box<dyn Parser<V>> {
        match self {
            Node::P(p) => p,
            Node::Named(n) => panic!("a name without a consumer"),
            Node::Arg(a, c) => boxed(a.parse(move |s: String| c(s))),
            Node::Pos(a, c) => boxed(a.parse(move |s: String| c(s))),
            Node::Any(a) => boxed(a),
            Node::Flag(a) => boxed(a),
            Node::Many(m) => boxed(m.map(V::List)),
            Node::Opt(o) => boxed(o.map(|x| V::Opt(x.map(Box::new)))),
            Node::Some_(s) => boxed(s.map(V::List)),
            Node::Fallback(f) => boxed(f),
            Node::Con(c) => boxed(c),
            Node::Comp(p, _) => p,
            Node::Cmd(c) => boxed(c),
            Node::Opts(o) => panic!("an options parser used as a parser"),
        }
    }
}

impl Interp {
    fn expr(&mut self, ts: &[TokenTree]) -> Node {
        // a block: let bindings then the final expression
        let mut start: Option<(Node, usize)> = None;
        if let TokenTree::Group(g) = &ts[0] {
            if g.delimiter() == Delimiter::Brace {
                let inner: Vec<TokenTree> = g.stream().into_iter().collect();
                start = Some((self.block(&inner), 1));
            }
        }
        let (mut node, mut i) = match start {
            Some(s) => s,
            None => self.primary(ts),
        };
        while i < ts.len() {
            assert!(is_punct(&ts[i], '.'), "unexpected `{}`", text(&ts[i..]));
            let name = ts[i + 1].to_string();
            let mut j = i + 2;
            let mut targs: Vec<TokenTree> = vec![];
            if j < ts.len() && is_punct(&ts[j], ':') {
                // ::<T>
                j += 3;
                let mut depth = 1;
                while depth > 0 {
                    if is_punct(&ts[j], '<') {
                        depth += 1;
                    }
                    if is_punct(&ts[j], '>') {
                        depth -= 1;
                        if depth == 0 {
                            break;
                        }
                    }
                    targs.push(ts[j].clone());
                    j += 1;
                }
                j += 1;
            }
            let args: Vec<TokenTree> = match &ts[j] {
                TokenTree::Group(g) => g.stream().into_iter().collect(),
                _ => panic!("no arguments for .{}", name),
            };
            node = self.method(node, &name, &targs, &args);
            i = j + 1;
        }
        node
    }

    fn block(&mut self, ts: &[TokenTree]) -> Node {
        let mut i = 0;
        let mut saved = vec![];
        loop {
            if is_ident(&ts[i], "let") {
                let name = ts[i + 1].to_string();
                let mut j = i + 3;
                while !is_punct(&ts[j], ';') {
                    j += 1;
                }
                let body: Vec<TokenTree> = ts[i + 3..j].to_vec();
                let mut sub = Interp { reg: self.reg.clone(), b: self.b.clone(), env: self.env.clone() };
                let f: Rc<dyn Fn() -> Box<dyn Parser<V>>> = Rc::new(move || {
                    let mut sub = Interp { reg: sub.reg.clone(), b: sub.b.clone(), env: sub.env.clone() };
                    sub.expr(&body).into_p()
                });
                saved.push((name.clone(), self.env.get(&name).cloned()));
                self.env.insert(name, f);
                i = j + 1;
            } else {
                let n = self.expr(&ts[i..]);
                return n;
            }
        }
    }

    fn primary(&mut self, ts: &[TokenTree]) -> (Node, usize) {
        // a path, maybe a macro, maybe a turbofish, then arguments
        let mut i = 0;
        let mut segs: Vec<String> = vec![];
        let mut turbofish: Vec<TokenTree> = vec![];
        let mut is_macro = false;
        while i < ts.len() {
            match &ts[i] {
                TokenTree::Ident(id) => {
                    segs.push(id.to_string());
                    i += 1;
                }
                TokenTree::Punct(p) if p.as_char() == ':' => {
                    i += 1;
                    if i < ts.len() && is_punct(&ts[i], '<') {
                        i += 1;
                        let mut depth = 1;
                        while depth > 0 {
                            if is_punct(&ts[i], '<') {
                                depth += 1;
                            }
                            if is_punct(&ts[i], '>') {
                                depth -= 1;
                                if depth == 0 {
                                    break;
                                }
                            }
                            turbofish.push(ts[i].clone());
                            i += 1;
                        }
                        i += 1;
                    }
                }
                TokenTree::Punct(p) if p.as_char() == '!' => {
                    is_macro = true;
                    i += 1;
                }
                _ => break,
            }
        }
        let last = segs.last().cloned().unwrap_or_default();
        if i >= ts.len() || !matches!(&ts[i], TokenTree::Group(_)) {
            // a variable bound by a let
            let f = self.env.get(&last).unwrap_or_else(|| panic!("unknown name {}", last)).clone();
            return (Node::P(f()), i);
        }
        let args: Vec<TokenTree> = match &ts[i] {
            TokenTree::Group(g) => g.stream().into_iter().collect(),
            _ => unreachable!(),
        };
        let next = i + 1;
        let parts = split_commas(&args);
        let node = if is_macro {
            match last.as_str() {
                "construct" => self.construct(&args),
                "compile_error" => panic!("the derive reported: {}", text(&args)),
                _ => panic!("unknown macro {}", last),
            }
        } else if !self.is_bpaf_path(&segs) {
            let k = segs.join("::");
            let f = self.reg.externals.get(&key(&k)).unwrap_or_else(|| panic!("the test registers no parser {}", k)).clone();
            Node::P(f())
        } else {
            match last.as_str() {
                "long" => Node::Named(bpaf::long(leak(self.text_arg(&args)))),
                "short" => Node::Named(bpaf::short(match self.value(&args) {
                    V::Char(c) => c,
                    v => panic!("short of {:?}", v),
                })),
                "env" => Node::Named(bpaf::env(leak(self.text_arg(&args)))),
                "positional" => {
                    let c = self.conv(&turbofish);
                    Node::Pos(bpaf::positional::<String>(leak(self.text_arg(&parts[0]))), c)
                }
                "any" => {
                    let metavar = self.text_arg(&parts[0]);
                    let check = self.check(&parts[1]);
                    let conv: Option<Conv> = if turbofish.is_empty() {
                        None
                    } else {
                        let targs = split_commas(&turbofish);
                        Some(self.conv(&targs[0]))
                    };
                    let f = move |s: String| -> Option<V> {
                        match &conv {
                            Some(c) => match c(s.clone()) {
                                Ok(_) => check(s),
                                Err(_) => None,
                            },
                            None => check(s),
                        }
                    };
                    Node::Any(bpaf::any::<String, V, _>(leak(metavar), f))
                }
                "pure" => Node::P(boxed(bpaf::pure(self.value(&args)))),
                "pure_with" => {
                    let f = self.reg.withs.get(&key(&text(&args))).expect("a registered pure_with").clone();
                    Node::P(boxed(bpaf::pure_with(move || f())))
                }
                "fail" => Node::P(boxed(bpaf::fail::<V>(leak(self.text_arg(&args))))),
                "cargo_helper" => {
                    let name = self.text_arg(&parts[0]);
                    let rest: Vec<TokenTree> = args[parts[0].len() + 1..].to_vec();
                    let inner = self.expr(&rest).into_p();
                    Node::P(boxed(bpaf::cargo_helper(leak(name), inner)))
                }
                other => panic!("unknown function {}", other),
            }
        };
        (node, next)
    }

    fn is_bpaf_path(&self, segs: &[String]) -> bool {
        let b: Vec<String> = self
            .b
            .iter()
            .filter_map(|t| match t {
                TokenTree::Ident(i) => Some(i.to_string()),
                _ => None,
            })
            .collect();
        segs.len() == b.len() + 1 && segs[..b.len()] == b[..]
    }

    fn check(&self, ts: &[TokenTree]) -> Rc<dyn Fn(String) -> Option<V>> {
        self.reg.checks.get(&key(&text(ts))).unwrap_or_else(|| panic!("the test registers no check `{}`", text(ts))).clone()
    }

    fn construct(&mut self, args: &[TokenTree]) -> Node {
        // [a, b, ..] alternatives, or Path { a, b } / Path(a, b)
        if args.len() == 1 {
            if let TokenTree::Group(g) = &args[0] {
                if g.delimiter() == Delimiter::Bracket {
                    let inner: Vec<TokenTree> = g.stream().into_iter().collect();
                    let ps: Vec<Box<dyn Parser<V>>> = split_commas(&inner)
                        .iter()
                        .map(|p| {
                            let f = self.env.get(&p[0].to_string()).unwrap().clone();
                            f()
                        })
                        .collect();
                    return Node::P(boxed(bpaf::choice(ps)));
                }
            }
        }
        let mut segs = vec![];
        let mut i = 0;
        while i < args.len() {
            match &args[i] {
                TokenTree::Ident(id) => segs.push(id.to_string()),
                TokenTree::Punct(_) => {}
                TokenTree::Group(_) => break,
                _ => {}
            }
            i += 1;
        }
        let (tuple, names) = match &args[i] {
            TokenTree::Group(g) => (
                g.delimiter() == Delimiter::Parenthesis,
                split_commas(&g.stream().into_iter().collect::<Vec<_>>())
                    .iter()
                    .map(|p| p[0].to_string())
                    .collect::<Vec<String>>(),
            ),
            _ => unreachable!(),
        };
        let name = segs.last().unwrap().clone();
        let parsers: Vec<Box<dyn Parser<V>>> = names.iter().map(|n| (self.env.get(n).unwrap())()).collect();
        if parsers.is_empty() {
            return Node::P(boxed(bpaf::pure(V::Node(name, vec![], tuple))));
        }
        if parsers.len() == 1 && false {
            unreachable!();
        }
        let meta = bpaf::Meta::And(parsers.iter().map(|p| p.meta()).collect());
        let fields: Vec<String> = names
            .iter()
            .enumerate()
            .map(|(k, n)| if tuple { k.to_string() } else { n.trim_start_matches("r#").to_string() })
            .collect();
        let inner: Box<dyn Fn(bool, &mut bpaf::State) -> Result<V, bpaf::Error>> =
            Box::new(move |failfast: bool, args: &mut bpaf::State| {
                let mut results = vec![];
                for (k, p) in parsers.iter().enumerate() {
                    let r = p.eval(args);
                    if k == 0 && failfast {
                        let r = Ok(r?);
                        results.push(r);
                    } else {
                        results.push(r);
                    }
                }
                let mut vals = vec![];
                for (k, r) in results.into_iter().enumerate() {
                    vals.push((fields[k].clone(), r?));
                }
                args.current = None;
                Ok(V::Node(name.clone(), vals, tuple))
            });
        Node::Con(bpaf::ParseCon { inner, meta, failfast: false })
    }

    fn method(&mut self, node: Node, name: &str, targs: &[TokenTree], args: &[TokenTree]) -> Node {
        let parts = split_commas(args);
        match (node, name) {
            (Node::Named(n), "short") => Node::Named(n.short(match self.value(args) {
                V::Char(c) => c,
                v => panic!("short of {:?}", v),
            })),
            (Node::Named(n), "long") => Node::Named(n.long(leak(self.text_arg(args)))),
            (Node::Named(n), "env") => Node::Named(n.env(leak(self.text_arg(args)))),
            (Node::Named(n), "help") => Node::Named(n.help(leak(self.text_arg(args)))),
            (Node::Named(n), "switch") => Node::Flag(n.flag(V::Bool(true), V::Bool(false))),
            (Node::Named(n), "flag") => {
                let (a, b) = (self.value(&parts[0]), self.value(&parts[1]));
                Node::Flag(n.flag(a, b))
            }
            (Node::Flag(f), "help") => Node::Flag(f.help(leak(self.text_arg(args)))),
            (Node::Named(n), "req_flag") => Node::P(boxed(n.req_flag(self.value(args)))),
            (Node::Named(n), "argument") => {
                let c = self.conv(targs);
                Node::Arg(n.argument::<String>(leak(self.text_arg(args))), c)
            }
            (Node::Arg(a, c), "help") => Node::Arg(a.help(leak(self.text_arg(args))), c),
            (Node::Arg(a, c), "adjacent") => Node::Arg(a.adjacent(), c),
            (Node::Pos(a, c), "help") => Node::Pos(a.help(leak(self.text_arg(args))), c),
            (Node::Pos(a, c), "strict") => Node::Pos(a.strict(), c),
            (Node::Pos(a, c), "non_strict") => Node::Pos(a.non_strict(), c),
            (Node::Any(a), "help") => Node::Any(a.help(leak(self.text_arg(args)))),
            (Node::Any(a), "anywhere") => Node::Any(a.anywhere()),
            (Node::Many(m), "catch") => Node::Many(m.catch()),
            (Node::Opt(m), "catch") => Node::Opt(m.catch()),
            (Node::Some_(m), "catch") => Node::Some_(m.catch()),
            (Node::Fallback(f), "display_fallback") => Node::Fallback(f.display_fallback()),
            (Node::Fallback(f), "debug_fallback") => Node::Fallback(f.debug_fallback()),
            (Node::Fallback(f), "format_fallback") => {
                let g = self.reg.formats.get(&key(&text(args))).expect("a registered format").clone();
                Node::Fallback(f.format_fallback(move |v: &V, fm: &mut std::fmt::Formatter<'_>| g(v, fm)))
            }
            (Node::Con(c), "adjacent") => Node::P(boxed(c.adjacent())),
            (Node::Comp(p, Some(regroup)), "group") => {
                let g = self.text_arg(args);
                Node::Comp(regroup(p, g), None)
            }
            (Node::Opts(o), m) => Node::Opts(match m {
                "descr" => o.descr(leak(self.text_arg(args))),
                "footer" => o.footer(leak(self.text_arg(args))),
                "header" => o.header(leak(self.text_arg(args))),
                "usage" => o.usage(leak(self.text_arg(args))),
                "version" => o.version(leak(self.text_arg(args))),
                "max_width" => o.max_width(usize::from_v(&self.value(args))),
                "fallback_to_usage" => o.fallback_to_usage(),
                "command" => return Node::Cmd(o.command(leak(self.text_arg(args)))),
                other => panic!("unknown options method {}", other),
            }),
            (Node::Cmd(c), "short") => Node::Cmd(c.short(match self.value(args) {
                V::Char(ch) => ch,
                v => panic!("short of {:?}", v),
            })),
            (Node::Cmd(c), "long") => Node::Cmd(c.long(leak(self.text_arg(args)))),
            (Node::Cmd(c), "help") => Node::Cmd(c.help(leak(self.text_arg(args)))),
            (node, m) => {
                let p = node.into_p();
                match m {
                    "to_options" => Node::Opts(p.to_options()),
                    "boxed" => Node::P(p),
                    "optional" => Node::Opt(p.optional()),
                    "many" => Node::Many(p.many()),
                    "some" => Node::Some_(p.some(leak(self.text_arg(args)))),
                    "count" => Node::P(boxed(p.count().map(|n| V::Int(n as i128)))),
                    "last" => Node::P(boxed(p.last())),
                    "collect" => Node::P(boxed(p.many().map(V::List))),
                    "map" => {
                        let f = self.reg.maps.get(&key(&text(args))).unwrap_or_else(|| panic!("the test registers no map `{}`", text(args))).clone();
                        Node::P(boxed(p.map(move |v| f(v))))
                    }
                    "parse" => {
                        let t = key(&text(args));
                        if t.starts_with("|s:String|{(") && t.ends_with(")(s).ok_or(\"validationfailed\")}") {
                            let check_key = &t["|s:String|{(".len()..t.len() - ")(s).ok_or(\"validationfailed\")}".len()];
                            let check = self.reg.checks.get(check_key).unwrap_or_else(|| panic!("the test registers no check `{}`", check_key)).clone();
                            Node::P(boxed(p.parse(move |v: V| check(String::from_v(&v)).ok_or("validation failed"))))
                        } else {
                            let f = self.reg.parses.get(&t).unwrap_or_else(|| panic!("the test registers no parse `{}`", text(args))).clone();
                            Node::P(boxed(p.parse(move |v| f(v))))
                        }
                    }
                    "guard" => {
                        let n = parts.len();
                        let msg = self.text_arg(&parts[n - 1]);
                        let check_ts: Vec<TokenTree> = args[..args.len() - parts[n - 1].len() - 1].to_vec();
                        let f = self.reg.guards.get(&key(&text(&check_ts))).unwrap_or_else(|| panic!("the test registers no guard `{}`", text(&check_ts))).clone();
                        Node::P(boxed(p.guard(move |v: &V| f(v), leak(msg))))
                    }
                    "fallback" => Node::Fallback(p.fallback(self.value(args))),
                    "fallback_with" => {
                        let f = self.reg.withs.get(&key(&text(args))).expect("a registered fallback_with").clone();
                        Node::P(boxed(p.fallback_with(move || f())))
                    }
                    "hide" => Node::P(boxed(p.hide())),
                    "hide_usage" => Node::P(boxed(p.hide_usage())),
                    "custom_usage" => Node::P(boxed(p.custom_usage(leak(self.text_arg(args))))),
                    "group_help" => Node::P(boxed(p.group_help(leak(self.text_arg(args))))),
                    "complete" => {
                        let f = self.reg.completes.get(&key(&text(args))).unwrap_or_else(|| panic!("the test registers no completion `{}`", text(args))).clone();
                        let f2 = f.clone();
                        let regroup: Box<dyn Fn(Box<dyn Parser<V>>, String) -> Box<dyn Parser<V>>> =
                            Box::new(move |q: Box<dyn Parser<V>>, g: String| {
                                let f3 = f2.clone();
                                boxed(q.complete(move |v: &V| f3(v)).group(g))
                            });
                        let inner = p;
                        let comp = boxed(inner.complete(move |v: &V| f(v)));
                        Node::Comp(comp, Some(regroup))
                    }
                    "complete_shell" => {
                        let s = self.reg.shells.get(&key(&text(args))).expect("a registered shell completion").clone();
                        Node::P(boxed(p.complete_shell(s)))
                    }
                    "display_fallback" | "debug_fallback" => Node::P(p),
                    "adjacent" => panic!("adjacent on a parser that is not a product"),
                    other => panic!("unknown method {}", other),
                }
            }
        }
    }
}

/// The parser the derive makes for `src`, run on dynamic values and converted into
/// the test's own type `T`.
pub struct Derived<T> {
    opts: Option<OptionParser<V>>,
    parser: Option<Box<dyn Parser<V>>>,
    _t: std::marker::PhantomData<T>,
}

/// The generated code split at the top level: the impl's braces and the tokens after
/// them (the free function).
fn generated(src: &str) -> (String, Vec<TokenTree>, Vec<TokenTree>) {
    let code = derive_text(src);
    let ts: TokenStream = code.parse().expect("the generated code lexes");
    let toks: Vec<TokenTree> = ts.into_iter().collect();
    // # [allow(..)] impl NAME { pub? fn METHOD () -> RT { use B::Parser as _; BODY } } pub? fn SNAKE () -> RT { NAME :: METHOD () }
    let at = toks
        .iter()
        .position(|t| matches!(t, TokenTree::Group(g) if g.delimiter() == Delimiter::Brace))
        .unwrap_or_else(|| panic!("generated code: {}", code));
    let impl_body = match &toks[at] {
        TokenTree::Group(g) => g.stream().into_iter().collect::<Vec<_>>(),
        _ => unreachable!(),
    };
    (code, impl_body, toks[at + 1..].to_vec())
}

fn interpret<T>(code: &str, impl_body: &[TokenTree], reg: Reg) -> Derived<T> {
    let fn_body = match impl_body.last() {
        Some(TokenTree::Group(g)) => g.stream().into_iter().collect::<Vec<_>>(),
        _ => panic!("generated code: {}", code),
    };
    let semi = fn_body.iter().position(|t| is_punct(t, ';')).unwrap();
    let b: Vec<TokenTree> = fn_body[1..semi - 4].to_vec();
    let body: Vec<TokenTree> = fn_body[semi + 1..].to_vec();
    let mut it = Interp { reg, b, env: HashMap::new() };
    match it.expr(&body) {
        Node::Opts(o) => Derived { opts: Some(o), parser: None, _t: std::marker::PhantomData },
        node => Derived { opts: None, parser: Some(node.into_p()), _t: std::marker::PhantomData },
    }
}

/// The parser of the impl's function.
pub fn derived<T>(src: &str, reg: Reg) -> Derived<T> {
    let (code, impl_body, _) = generated(src);
    interpret(&code, &impl_body, reg)
}

/// The parser of the free function `name`, which must hand out the impl's parser.
pub fn derived_fn<T>(src: &str, name: &str, reg: Reg) -> Derived<T> {
    let (code, impl_body, rest) = generated(src);
    let at = rest
        .windows(2)
        .position(|w| is_ident(&w[0], "fn") && is_ident(&w[1], name))
        .unwrap_or_else(|| panic!("no function {} in the generated code: {}", name, code));
    let call = match rest.last() {
        Some(TokenTree::Group(g)) => g.stream().into_iter().collect::<Vec<_>>(),
        _ => panic!("generated code: {}", code),
    };
    let method = impl_body
        .windows(2)
        .find(|w| is_ident(&w[0], "fn"))
        .map(|w| w[1].to_string())
        .unwrap_or_else(|| panic!("generated code: {}", code));
    assert!(at < rest.len());
    assert!(
        call.len() == 5 && is_punct(&call[1], ':') && is_punct(&call[2], ':') && is_ident(&call[3], &method),
        "the free function calls the impl's function: {}",
        code
    );
    interpret(&code, &impl_body, reg)
}

impl<T: FromV> Derived<T> {
    pub fn run_inner<'a>(&self, args: impl Into<Args<'a>>) -> Result<T, ParseFailure> {
        match &self.opts {
            Some(o) => o.run_inner(args).map(|v| T::from_v(&v)),
            None => panic!("not an options parser"),
        }
    }
    pub fn to_options(self) -> Derived<T> {
        let p = self.parser.expect("a parser");
        Derived { opts: Some(p.to_options()), parser: None, _t: std::marker::PhantomData }
    }
    pub fn options(&self) -> &OptionParser<V> {
        self.opts.as_ref().expect("an options parser")
    }
    pub fn into_parser(self) -> Box<dyn Parser<V>> {
        self.parser.expect("a parser")
    }
}

impl<T: FromV> Parser<T> for Derived<T> {
    fn eval(&self, args: &mut bpaf::State) -> Result<T, bpaf::Error> {
        self.parser.as_ref().expect("a parser").eval(args).map(|v| T::from_v(&v))
    }
    fn meta(&self) -> bpaf::Meta {
        self.parser.as_ref().expect("a parser").meta()
    }
}

fn v_pos(v: &V, i: usize) -> V {
    match v {
        V::Node(_, fs, _) => fs[i].1.clone(),
        other => panic!("no position {} in {:?}", i, other),
    }
}



// ============================================================================
// Basic enum with fallback
// ============================================================================

const DECISION_SRC: &str = r##"#[bpaf(fallback(Decision::No))]
enum Decision {
    #[bpaf(command)]
    Yes,
    #[bpaf(command)]
    No,
}"##;
#[derive(Debug, Clone, PartialEq)]
enum Decision {
    Yes,
    No,
}
impl Decision {
    #[allow(dead_code)]
    pub fn parse() -> Derived<Decision> {
        derived(DECISION_SRC, reg())
    }
}

impl FromV for Decision {
    fn from_v(v: &V) -> Self {
        match v.name() {
            "Yes" => Decision::Yes,
            "No" => Decision::No,
            other => panic!("no variant {} of Decision", other),
        }
    }
}
impl ToV for Decision {
    fn to_v(self) -> V {
        match self {
            Decision::Yes => V::Node("Yes".into(), vec![], false),
            Decision::No => V::Node("No".into(), vec![], false),
        }
    }
}


#[test]
fn enum_fallback_basic() {
    let parser = Decision::parse().to_options();

    // When no arguments provided, should use fallback
    let result = parser.run_inner(&[] as &[&str]);
    assert!(result.is_ok(), "Should succeed with fallback: {:?}", result);
    assert_eq!(result.unwrap(), Decision::No);
}

#[test]
fn enum_fallback_explicit_value() {
    let parser = Decision::parse().to_options();

    // When explicit value provided, should use it (enum variants are commands, not flags)
    let result = parser.run_inner(&["yes"]);
    assert!(result.is_ok(), "Should parse explicit value: {:?}", result);
    assert_eq!(result.unwrap(), Decision::Yes);
}

// ============================================================================
// Enum with fallback and options mode
// ============================================================================

const ACTION_SRC: &str = r##"#[bpaf(options, fallback(Action::Help))]
enum Action {
    #[bpaf(command)]
    Run,
    #[bpaf(command)]
    Help,
}"##;
#[derive(Debug, Clone, PartialEq)]
enum Action {
    Run,
    Help,
}
impl Action {
    #[allow(dead_code)]
    pub fn parse() -> Derived<Action> {
        derived(ACTION_SRC, reg())
    }
}

impl FromV for Action {
    fn from_v(v: &V) -> Self {
        match v.name() {
            "Run" => Action::Run,
            "Help" => Action::Help,
            other => panic!("no variant {} of Action", other),
        }
    }
}
impl ToV for Action {
    fn to_v(self) -> V {
        match self {
            Action::Run => V::Node("Run".into(), vec![], false),
            Action::Help => V::Node("Help".into(), vec![], false),
        }
    }
}


#[test]
fn enum_fallback_with_options() {
    let parser = Action::parse();

    // When no arguments provided, should use fallback
    let result = parser.run_inner(&[] as &[&str]);
    assert!(result.is_ok(), "Should succeed with fallback: {:?}", result);
    assert_eq!(result.unwrap(), Action::Help);
}

#[test]
fn enum_fallback_with_options_explicit() {
    let parser = Action::parse();

    // When explicit value provided, should use it (enum variants are commands, not flags)
    let result = parser.run_inner(&["run"]);
    assert!(result.is_ok(), "Should parse explicit value: {:?}", result);
    assert_eq!(result.unwrap(), Action::Run);
}

// ============================================================================
// Complex enum with fallback
// ============================================================================

const STATUS_SRC: &str = r##"#[bpaf(fallback(Status::Pending))]
enum Status {
    #[bpaf(command)]
    Active,
    #[bpaf(command)]
    Pending,
    #[bpaf(command)]
    Completed,
}"##;
#[derive(Debug, Clone, PartialEq)]
enum Status {
    Active,
    Pending,
    Completed,
}
impl Status {
    #[allow(dead_code)]
    pub fn parse() -> Derived<Status> {
        derived(STATUS_SRC, reg())
    }
}

impl FromV for Status {
    fn from_v(v: &V) -> Self {
        match v.name() {
            "Active" => Status::Active,
            "Pending" => Status::Pending,
            "Completed" => Status::Completed,
            other => panic!("no variant {} of Status", other),
        }
    }
}
impl ToV for Status {
    fn to_v(self) -> V {
        match self {
            Status::Active => V::Node("Active".into(), vec![], false),
            Status::Pending => V::Node("Pending".into(), vec![], false),
            Status::Completed => V::Node("Completed".into(), vec![], false),
        }
    }
}


#[test]
fn enum_fallback_complex() {
    let parser = Status::parse().to_options();

    // Default to Pending
    let result = parser.run_inner(&[] as &[&str]);
    assert!(result.is_ok(), "Should succeed with fallback: {:?}", result);
    assert_eq!(result.unwrap(), Status::Pending);
}

#[test]
fn enum_fallback_complex_active() {
    let parser = Status::parse().to_options();

    let result = parser.run_inner(&["active"]);
    assert!(result.is_ok(), "Should parse Active: {:?}", result);
    assert_eq!(result.unwrap(), Status::Active);
}

#[test]
fn enum_fallback_complex_completed() {
    let parser = Status::parse().to_options();

    let result = parser.run_inner(&["completed"]);
    assert!(result.is_ok(), "Should parse Completed: {:?}", result);
    assert_eq!(result.unwrap(), Status::Completed);
}

// ============================================================================
// Struct with fallback (should also work)
// ============================================================================

const CONFIG_SRC: &str = r##"#[bpaf(fallback(Config { verbose: false }))]
struct Config {
    #[bpaf(short, long, switch)]
    verbose: bool,
}"##;
#[derive(Debug, Clone, PartialEq)]
struct Config {
    verbose: bool,
}
impl Config {
    #[allow(dead_code)]
    pub fn parse() -> Derived<Config> {
        derived(CONFIG_SRC, reg())
    }
}

impl FromV for Config {
    fn from_v(v: &V) -> Self {
        Config { verbose: FromV::from_v(v.field("verbose")) }
    }
}
impl ToV for Config {
    fn to_v(self) -> V {
        V::Node("Config".into(), vec![("verbose".into(), self.verbose.to_v())], false)
    }
}


#[test]
fn struct_fallback_basic() {
    let parser = Config::parse().to_options();

    // When no arguments provided, should use fallback
    let result = parser.run_inner(&[] as &[&str]);
    assert!(result.is_ok(), "Should succeed with fallback: {:?}", result);
    assert_eq!(result.unwrap(), Config { verbose: false });
}

#[test]
fn struct_fallback_explicit() {
    let parser = Config::parse().to_options();

    // When explicit value provided, should use it
    let result = parser.run_inner(&["-v"]);
    assert!(result.is_ok(), "Should parse explicit value: {:?}", result);
    assert_eq!(result.unwrap(), Config { verbose: true });
}

// ============================================================================
// Fallback with complex expression
// ============================================================================

const PRIORITY_SRC: &str = r##"#[bpaf(fallback(Priority::from_default()))]
enum Priority {
    #[bpaf(command)]
    Low,
    #[bpaf(command)]
    Medium,
    #[bpaf(command)]
    High,
}"##;
#[derive(Debug, Clone, PartialEq)]
enum Priority {
    Low,
    Medium,
    High,
}
impl Priority {
    #[allow(dead_code)]
    pub fn parse() -> Derived<Priority> {
        derived(PRIORITY_SRC, reg())
    }
}

impl FromV for Priority {
    fn from_v(v: &V) -> Self {
        match v.name() {
            "Low" => Priority::Low,
            "Medium" => Priority::Medium,
            "High" => Priority::High,
            other => panic!("no variant {} of Priority", other),
        }
    }
}
impl ToV for Priority {
    fn to_v(self) -> V {
        match self {
            Priority::Low => V::Node("Low".into(), vec![], false),
            Priority::Medium => V::Node("Medium".into(), vec![], false),
            Priority::High => V::Node("High".into(), vec![], false),
        }
    }
}


impl Priority {
    fn from_default() -> Self {
        Priority::Medium
    }
}

#[test]
fn enum_fallback_with_function() {
    let parser = Priority::parse().to_options();

    // Should call Priority::from_default()
    let result = parser.run_inner(&[] as &[&str]);
    assert!(result.is_ok(), "Should succeed with fallback: {:?}", result);
    assert_eq!(result.unwrap(), Priority::Medium);
}

#[test]
fn enum_fallback_with_function_explicit() {
    let parser = Priority::parse().to_options();

    let result = parser.run_inner(&["high"]);
    assert!(result.is_ok(), "Should parse High: {:?}", result);
    assert_eq!(result.unwrap(), Priority::High);
}

fn reg() -> Reg {
    let mut r = Reg::default();
    r.val("Decision::No", Decision::No);
    r.val("Action::Help", Action::Help);
    r.val("Status::Pending", Status::Pending);
    r.val("Config { verbose: false }", Config { verbose: false });
    r.val("Priority::from_default()", Priority::from_default());
    r
}
