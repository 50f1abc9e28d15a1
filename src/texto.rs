//! The text primitives that extraction is built on: regular-expression
//! matching and escaping, trimming, and a few string helpers.
use regex::Regex;
use vstd::prelude::*;

verus! {

/// The capture groups of one match (index 0 is the whole match); a group that
/// did not take part in the match is `None`.
pub type Grupos = Seq<Option<Seq<char>>>;

pub open spec fn grupos_view(v: Seq<Option<String>>) -> Grupos {
    v.map_values(|o: Option<String>|
        match o {
            Some(s) => Some(s@),
            None => None,
        })
}

/// Groups of the leftmost match of `padrao` in `texto`; `None` where there is
/// no match or the pattern does not compile.
pub uninterp spec fn regex_primeira(padrao: Seq<char>, texto: Seq<char>) -> Option<Grupos>;

/// Groups of each successive non-overlapping match of `padrao` in `texto`, in
/// text order; empty where the pattern does not compile.
pub uninterp spec fn regex_todas(padrao: Seq<char>, texto: Seq<char>) -> Seq<Grupos>;

/// `s` without its leading and trailing white space.
pub uninterp spec fn aparado(s: Seq<char>) -> Seq<char>;

/// Relies on `regex::Regex::new` and `regex::Regex::captures`: compiles the
/// pattern and returns the groups of the leftmost match.
#[verifier::external_body]
pub(crate) fn primeira_captura(padrao: &str, texto: &str) -> (r: Option<Vec<Option<String>>>)
    ensures
        match r {
            Some(g) => regex_primeira(padrao@, texto@) == Some(grupos_view(g@)),
            None => regex_primeira(padrao@, texto@) is None,
        },
{
    let re = Regex::new(padrao).ok()?;
    let caps = re.captures(texto)?;
    Some(caps.iter().map(|m| m.map(|m| m.as_str().to_string())).collect())
}

/// Relies on `regex::Regex::new` and `regex::Regex::captures_iter`: compiles
/// the pattern and returns the groups of every match, in order.
#[verifier::external_body]
pub(crate) fn todas_capturas(padrao: &str, texto: &str) -> (r: Vec<Vec<Option<String>>>)
    ensures
        r@.len() == regex_todas(padrao@, texto@).len(),
        forall|i: int|
            0 <= i < r@.len() ==> grupos_view(#[trigger] r@[i]@) == regex_todas(padrao@, texto@)[i],
{
    match Regex::new(padrao) {
        Ok(re) => re.captures_iter(texto).map(
            |c| c.iter().map(|m| m.map(|m| m.as_str().to_string())).collect(),
        ).collect(),
        Err(_) => Vec::new(),
    }
}

/// Relies on `str::trim`: removes leading and trailing white space.
#[verifier::external_body]
pub(crate) fn aparar(s: &str) -> (r: String)
    ensures
        r@ == aparado(s@),
{
    s.trim().to_string()
}

/// The characters that `regex::escape` puts a backslash before.
pub open spec fn eh_meta(c: char) -> bool {
    c == '\\' || c == '.' || c == '+' || c == '*' || c == '?' || c == '(' || c == ')' || c
        == '|' || c == '[' || c == ']' || c == '{' || c == '}' || c == '^' || c == '$' || c
        == '#' || c == '&' || c == '-' || c == '~'
}

/// `s` as a pattern that matches exactly `s`.
pub open spec fn escapado(s: Seq<char>) -> Seq<char>
    decreases s.len(),
{
    if s.len() == 0 {
        Seq::empty()
    } else if eh_meta(s.last()) {
        escapado(s.drop_last()) + seq!['\\', s.last()]
    } else {
        escapado(s.drop_last()).push(s.last())
    }
}

/// Relies on `regex::escape`: a backslash before every meta character.
#[verifier::external_body]
pub(crate) fn escapar(s: &str) -> (r: String)
    ensures
        r@ == escapado(s@),
{
    regex::escape(s)
}

/// Relies on `String::push`: appends one character.
#[verifier::external_body]
pub(crate) fn empurrar(s: &mut String, c: char)
    ensures
        final(s)@ == old(s)@.push(c),
{
    s.push(c)
}

/// Group `i` of a match, or the empty string where it is absent.
pub open spec fn grupo(g: Grupos, i: int) -> Seq<char> {
    if 0 <= i < g.len() && g[i] is Some {
        g[i]->0
    } else {
        Seq::empty()
    }
}

pub(crate) fn grupo_exec(g: &Vec<Option<String>>, i: usize) -> (r: String)
    ensures
        r@ == grupo(grupos_view(g@), i as int),
{
    if i < g.len() {
        match &g[i] {
            Some(s) => s.clone(),
            None => String::new(),
        }
    } else {
        String::new()
    }
}

/// Group `i` of the first match; "N/A" where there is no match.
pub open spec fn grupo_ou_na(m: Option<Grupos>, i: int) -> Seq<char> {
    match m {
        Some(g) => grupo(g, i),
        None => "N/A"@,
    }
}

pub(crate) fn primeiro_grupo_ou_na(padrao: &str, texto: &str, i: usize) -> (r: String)
    ensures
        r@ == grupo_ou_na(regex_primeira(padrao@, texto@), i as int),
{
    match primeira_captura(padrao, texto) {
        Some(g) => grupo_exec(&g, i),
        None => String::from_str("N/A"),
    }
}

pub open spec fn opcao_view(o: Option<String>) -> Option<Seq<char>> {
    match o {
        Some(s) => Some(s@),
        None => None,
    }
}

pub(crate) fn copiar_opcao(o: &Option<String>) -> (r: Option<String>)
    ensures
        opcao_view(r) == opcao_view(*o),
{
    match o {
        Some(s) => Some(s.clone()),
        None => None,
    }
}

/// `a` followed by `b`.
pub(crate) fn concatenar(a: &str, b: &str) -> (r: String)
    ensures
        r@ == a@ + b@,
{
    let mut r = String::from_str(a);
    r.append(b);
    r
}

} // verus!
