use vstd::prelude::*;

use crate::datetime::{current_year, EPOCH_YEAR, MAX_YEAR};
use crate::text::eq_str;

verus! {

/// The values available to template substitution.
pub struct TemplateContext {
    username: String,
    email: String,
    name: String,
    edition: String,
    description: String,
    year: i32,
}

/// Mathematical model of a `TemplateContext`.
pub struct CtxView {
    pub username: Seq<char>,
    pub email: Seq<char>,
    pub name: Seq<char>,
    pub edition: Seq<char>,
    pub description: Seq<char>,
    pub year: int,
}

impl View for TemplateContext {
    type V = CtxView;

    closed spec fn view(&self) -> CtxView {
        CtxView {
            username: self.username@,
            email: self.email@,
            name: self.name@,
            edition: self.edition@,
            description: self.description@,
            year: self.year as int,
        }
    }
}

/// Rendering failure: an opening delimiter without its closing one, a stray
/// closing delimiter, or a placeholder that names no declared field.
#[derive(Debug)]
pub enum RenderError {
    Unbalanced,
    UnknownField { name: String },
}

pub enum RenderErrorView {
    Unbalanced,
    UnknownField { name: Seq<char> },
}

impl View for RenderError {
    type V = RenderErrorView;

    open spec fn view(&self) -> RenderErrorView {
        match self {
            RenderError::Unbalanced => RenderErrorView::Unbalanced,
            RenderError::UnknownField { name } => RenderErrorView::UnknownField { name: name@ },
        }
    }
}

pub open spec fn spec_digit_char(d: int) -> char {
    if d == 0 {
        '0'
    } else if d == 1 {
        '1'
    } else if d == 2 {
        '2'
    } else if d == 3 {
        '3'
    } else if d == 4 {
        '4'
    } else if d == 5 {
        '5'
    } else if d == 6 {
        '6'
    } else if d == 7 {
        '7'
    } else if d == 8 {
        '8'
    } else {
        '9'
    }
}

/// The four decimal digits of a year between 0 and 9999.
pub open spec fn spec_year_chars(y: int) -> Seq<char> {
    seq![
        spec_digit_char(y / 1000 % 10),
        spec_digit_char(y / 100 % 10),
        spec_digit_char(y / 10 % 10),
        spec_digit_char(y % 10),
    ]
}

/// The value of the declared field `name`, or `None` if no field is so named.
pub open spec fn spec_field(c: CtxView, name: Seq<char>) -> Option<Seq<char>> {
    if name == "username"@ {
        Some(c.username)
    } else if name == "email"@ {
        Some(c.email)
    } else if name == "name"@ {
        Some(c.name)
    } else if name == "edition"@ {
        Some(c.edition)
    } else if name == "description"@ {
        Some(c.description)
    } else if name == "year"@ {
        Some(spec_year_chars(c.year))
    } else {
        None
    }
}

/// Rendering of `t` from position `i` on: literal characters are copied, a
/// placeholder `{field}` is replaced by the field's value, a stray closing
/// delimiter or an unclosed placeholder is an error.
pub open spec fn spec_render_from(t: Seq<char>, c: CtxView, i: int) -> Result<
    Seq<char>,
    RenderErrorView,
>
    decreases t.len() - i, 1int,
{
    if i >= t.len() {
        Ok(Seq::empty())
    } else if t[i] == '}' {
        Err(RenderErrorView::Unbalanced)
    } else if t[i] == '{' {
        spec_scan_name(t, c, i + 1, i + 1)
    } else {
        match spec_render_from(t, c, i + 1) {
            Ok(rest) => Ok(seq![t[i]] + rest),
            Err(e) => Err(e),
        }
    }
}

/// Scanning for the closing delimiter of a placeholder that opened before
/// `start`; `j` is the scan position.
pub open spec fn spec_scan_name(t: Seq<char>, c: CtxView, start: int, j: int) -> Result<
    Seq<char>,
    RenderErrorView,
>
    decreases t.len() - j, 0int,
{
    if j >= t.len() {
        Err(RenderErrorView::Unbalanced)
    } else if t[j] == '}' {
        match spec_field(c, t.subrange(start, j)) {
            None => Err(RenderErrorView::UnknownField { name: t.subrange(start, j) }),
            Some(v) => match spec_render_from(t, c, j + 1) {
                Ok(rest) => Ok(v + rest),
                Err(e) => Err(e),
            },
        }
    } else {
        spec_scan_name(t, c, start, j + 1)
    }
}

/// What `render` returns on template `t` under context `c`.
pub open spec fn spec_render(t: Seq<char>, c: CtxView) -> Result<Seq<char>, RenderErrorView> {
    spec_render_from(t, c, 0)
}

pub open spec fn spec_prepend(p: Seq<char>, r: Result<Seq<char>, RenderErrorView>) -> Result<
    Seq<char>,
    RenderErrorView,
> {
    match r {
        Ok(s) => Ok(p + s),
        Err(e) => Err(e),
    }
}

proof fn lemma_prepend_assoc(a: Seq<char>, b: Seq<char>, r: Result<Seq<char>, RenderErrorView>)
    ensures
        spec_prepend(a, spec_prepend(b, r)) == spec_prepend(a + b, r),
{
    match r {
        Ok(s) => {
            assert(a + (b + s) =~= (a + b) + s);
        },
        Err(_) => {},
    }
}

impl TemplateContext {
    /// Calendar years are four-digit numbers.
    pub open spec fn wf(&self) -> bool {
        EPOCH_YEAR as int <= self@.year <= MAX_YEAR as int
    }

    /// A context whose year is the current calendar year.
    pub fn new(
        username: String,
        email: String,
        name: String,
        edition: String,
        description: String,
    ) -> (r: TemplateContext)
        ensures
            r.wf(),
            r@.username == username@,
            r@.email == email@,
            r@.name == name@,
            r@.edition == edition@,
            r@.description == description@,
            EPOCH_YEAR as int <= r@.year <= MAX_YEAR as int,
    {
        let year = current_year();
        TemplateContext { username, email, name, edition, description, year }
    }

    /// A context with every field chosen by the caller.
    pub fn with_year(
        username: String,
        email: String,
        name: String,
        edition: String,
        description: String,
        year: i32,
    ) -> (r: TemplateContext)
        requires
            EPOCH_YEAR <= year <= MAX_YEAR,
        ensures
            r.wf(),
            r@.username == username@,
            r@.email == email@,
            r@.name == name@,
            r@.edition == edition@,
            r@.description == description@,
            r@.year == year as int,
    {
        TemplateContext { username, email, name, edition, description, year }
    }

    pub fn year(&self) -> (y: i32)
        ensures
            y as int == self@.year,
    {
        self.year
    }

    pub fn username(&self) -> (r: &String)
        ensures
            r@ == self@.username,
    {
        &self.username
    }

    pub fn email(&self) -> (r: &String)
        ensures
            r@ == self@.email,
    {
        &self.email
    }
}

fn digit_str(d: i32) -> (r: &'static str)
    requires
        0 <= d <= 9,
    ensures
        r@ == seq![spec_digit_char(d as int)],
{
    if d == 0 {
        proof {
            reveal_strlit("0");
        }
        let r = "0";
        assert(r@ =~= seq![spec_digit_char(d as int)]);
        r
    } else if d == 1 {
        proof {
            reveal_strlit("1");
        }
        let r = "1";
        assert(r@ =~= seq![spec_digit_char(d as int)]);
        r
    } else if d == 2 {
        proof {
            reveal_strlit("2");
        }
        let r = "2";
        assert(r@ =~= seq![spec_digit_char(d as int)]);
        r
    } else if d == 3 {
        proof {
            reveal_strlit("3");
        }
        let r = "3";
        assert(r@ =~= seq![spec_digit_char(d as int)]);
        r
    } else if d == 4 {
        proof {
            reveal_strlit("4");
        }
        let r = "4";
        assert(r@ =~= seq![spec_digit_char(d as int)]);
        r
    } else if d == 5 {
        proof {
            reveal_strlit("5");
        }
        let r = "5";
        assert(r@ =~= seq![spec_digit_char(d as int)]);
        r
    } else if d == 6 {
        proof {
            reveal_strlit("6");
        }
        let r = "6";
        assert(r@ =~= seq![spec_digit_char(d as int)]);
        r
    } else if d == 7 {
        proof {
            reveal_strlit("7");
        }
        let r = "7";
        assert(r@ =~= seq![spec_digit_char(d as int)]);
        r
    } else if d == 8 {
        proof {
            reveal_strlit("8");
        }
        let r = "8";
        assert(r@ =~= seq![spec_digit_char(d as int)]);
        r
    } else {
        proof {
            reveal_strlit("9");
        }
        let r = "9";
        assert(r@ =~= seq![spec_digit_char(d as int)]);
        r
    }
}

/// The four decimal digits of `y`.
pub fn year_string(y: i32) -> (s: String)
    requires
        0 <= y <= 9999,
    ensures
        s@ == spec_year_chars(y as int),
{
    let mut s = String::new();
    s.append(digit_str(y / 1000 % 10));
    s.append(digit_str(y / 100 % 10));
    s.append(digit_str(y / 10 % 10));
    s.append(digit_str(y % 10));
    assert(s@ =~= spec_year_chars(y as int));
    s
}

/// The value of the declared field `name` of `c`, or `None`.
fn field_value(c: &TemplateContext, name: &str) -> (r: Option<String>)
    requires
        c.wf(),
    ensures
        (match spec_field(c@, name@) {
            Some(v) => r matches Some(s) && s@ == v,
            None => r is None,
        }),
{
    if eq_str(name, "username") {
        Some(c.username.clone())
    } else if eq_str(name, "email") {
        Some(c.email.clone())
    } else if eq_str(name, "name") {
        Some(c.name.clone())
    } else if eq_str(name, "edition") {
        Some(c.edition.clone())
    } else if eq_str(name, "description") {
        Some(c.description.clone())
    } else if eq_str(name, "year") {
        Some(year_string(c.year))
    } else {
        None
    }
}

/// What `render` returns: the rendering `spec_render` dictates, success and
/// failure alike.
pub open spec fn render_post(t: Seq<char>, c: CtxView, r: Result<String, RenderError>) -> bool {
    match (r, spec_render(t, c)) {
        (Ok(s), Ok(v)) => s@ == v,
        (Err(e), Err(ev)) => e@ == ev,
        _ => false,
    }
}

/// Rendering is deterministic and side-effect-free: any two results that
/// meet `render`'s contract for the same template and context agree, output
/// and failure alike.
pub proof fn lemma_render_deterministic(
    t: Seq<char>,
    c: CtxView,
    r1: Result<String, RenderError>,
    r2: Result<String, RenderError>,
)
    requires
        render_post(t, c, r1),
        render_post(t, c, r2),
    ensures
        r1 is Ok <==> r2 is Ok,
        r1 is Ok ==> r1->Ok_0@ == r2->Ok_0@,
        r1 is Err ==> r1->Err_0@ == r2->Err_0@,
{
}

/// Substitute the context's fields for the placeholders of `content`:
/// `{field}` becomes the field's value, everything else is copied. The
/// result and each failure are pinned by `spec_render`, so rendering is
/// deterministic: the same template and context always give the same output.
pub fn render(content: &str, context: &TemplateContext) -> (r: Result<String, RenderError>)
    requires
        context.wf(),
    ensures
        render_post(content@, context@, r),
{
    let ghost t = content@;
    let ghost c = context@;
    let len = content.unicode_len();
    let mut out = String::new();
    let mut i: usize = 0;
    loop
        invariant
            t == content@,
            c == context@,
            context.wf(),
            i <= len,
            len == t.len(),
            spec_render_from(t, c, 0) == spec_prepend(out@, spec_render_from(t, c, i as int)),
        ensures
            spec_render_from(t, c, 0) == Ok::<Seq<char>, RenderErrorView>(out@),
        decreases len - i,
    {
        if i >= len {
            assert(spec_render_from(t, c, i as int) == Ok::<Seq<char>, RenderErrorView>(
                Seq::empty(),
            ));
            assert(out@ + Seq::<char>::empty() =~= out@);
            break;
        }
        let ch = content.get_char(i);
        if ch == '}' {
            return Err(RenderError::Unbalanced);
        }
        if ch == '{' {
            assert(spec_render_from(t, c, i as int) == spec_scan_name(
                t,
                c,
                i as int + 1,
                i as int + 1,
            ));
            let mut j = i + 1;
            loop
                invariant
                    t == content@,
                    c == context@,
                    context.wf(),
                    i < len,
                    i + 1 <= j <= len,
                    len == t.len(),
                    spec_render_from(t, c, 0) == spec_prepend(
                        out@,
                        spec_scan_name(t, c, i as int + 1, j as int),
                    ),
                ensures
                    j < len,
                    t[j as int] == '}',
                    spec_render_from(t, c, 0) == spec_prepend(
                        out@,
                        spec_scan_name(t, c, i as int + 1, j as int),
                    ),
                decreases len - j,
            {
                if j >= len {
                    assert(spec_scan_name(t, c, i as int + 1, j as int) == Err::<
                        Seq<char>,
                        RenderErrorView,
                    >(RenderErrorView::Unbalanced));
                    return Err(RenderError::Unbalanced);
                }
                if content.get_char(j) == '}' {
                    break;
                }
                assert(spec_scan_name(t, c, i as int + 1, j as int) == spec_scan_name(
                    t,
                    c,
                    i as int + 1,
                    j as int + 1,
                ));
                j = j + 1;
            }
            let name = content.substring_char(i + 1, j);
            assert(name@ == t.subrange(i as int + 1, j as int));
            match field_value(context, name) {
                None => {
                    return Err(RenderError::UnknownField { name: name.to_owned() });
                },
                Some(v) => {
                    proof {
                        lemma_prepend_assoc(out@, v@, spec_render_from(t, c, j as int + 1));
                    }
                    out.append(v.as_str());
                    i = j + 1;
                },
            }
        } else {
            let piece = content.substring_char(i, i + 1);
            assert(piece@ =~= seq![t[i as int]]);
            assert(spec_render_from(t, c, i as int) == spec_prepend(
                seq![t[i as int]],
                spec_render_from(t, c, i as int + 1),
            ));
            proof {
                lemma_prepend_assoc(out@, piece@, spec_render_from(t, c, i as int + 1));
            }
            out.append(piece);
            i = i + 1;
        }
    }
    Ok(out)
}

/// No placeholder delimiter occurs in `s`.
pub open spec fn brace_free(s: Seq<char>) -> bool {
    forall|k: int| 0 <= k < s.len() ==> s[k] != '{' && s[k] != '}'
}

/// No field value of `c` holds a placeholder delimiter.
pub open spec fn ctx_brace_free(c: CtxView) -> bool {
    &&& brace_free(c.username)
    &&& brace_free(c.email)
    &&& brace_free(c.name)
    &&& brace_free(c.edition)
    &&& brace_free(c.description)
}

proof fn lemma_brace_free_concat(a: Seq<char>, b: Seq<char>)
    requires
        brace_free(a),
        brace_free(b),
    ensures
        brace_free(a + b),
{
    assert forall|k: int| 0 <= k < (a + b).len() implies (a + b)[k] != '{' && (a + b)[k]
        != '}' by {
        if k < a.len() {
            assert((a + b)[k] == a[k]);
        } else {
            assert((a + b)[k] == b[k - a.len()]);
        }
    }
}

proof fn lemma_year_chars_brace_free(y: int)
    ensures
        brace_free(spec_year_chars(y)),
{
    assert forall|k: int| 0 <= k < spec_year_chars(y).len() implies spec_year_chars(y)[k] != '{'
        && spec_year_chars(y)[k] != '}' by {
        assert(spec_year_chars(y)[k] == spec_digit_char(
            if k == 0 {
                y / 1000 % 10
            } else if k == 1 {
                y / 100 % 10
            } else if k == 2 {
                y / 10 % 10
            } else {
                y % 10
            },
        ));
    }
}

proof fn lemma_field_brace_free(c: CtxView, name: Seq<char>)
    requires
        ctx_brace_free(c),
    ensures
        match spec_field(c, name) {
            Some(v) => brace_free(v),
            None => true,
        },
{
    if name == "year"@ {
        lemma_year_chars_brace_free(c.year);
    }
}

proof fn lemma_render_from_no_markers(t: Seq<char>, c: CtxView, i: int)
    requires
        ctx_brace_free(c),
        0 <= i,
    ensures
        match spec_render_from(t, c, i) {
            Ok(v) => brace_free(v),
            Err(_) => true,
        },
    decreases t.len() - i, 1int,
{
    if i >= t.len() {
    } else if t[i] == '}' {
    } else if t[i] == '{' {
        lemma_scan_name_no_markers(t, c, i + 1, i + 1);
    } else {
        lemma_render_from_no_markers(t, c, i + 1);
        if let Ok(rest) = spec_render_from(t, c, i + 1) {
            lemma_brace_free_concat(seq![t[i]], rest);
        }
    }
}

proof fn lemma_scan_name_no_markers(t: Seq<char>, c: CtxView, start: int, j: int)
    requires
        ctx_brace_free(c),
        0 <= start <= j,
    ensures
        match spec_scan_name(t, c, start, j) {
            Ok(v) => brace_free(v),
            Err(_) => true,
        },
    decreases t.len() - j, 0int,
{
    if j >= t.len() {
    } else if t[j] == '}' {
        lemma_field_brace_free(c, t.subrange(start, j));
        if let Some(v) = spec_field(c, t.subrange(start, j)) {
            lemma_render_from_no_markers(t, c, j + 1);
            if let Ok(rest) = spec_render_from(t, c, j + 1) {
                lemma_brace_free_concat(v, rest);
            }
        }
    } else {
        lemma_scan_name_no_markers(t, c, start, j + 1);
    }
}

/// A successful rendering resolves every placeholder: when no field value
/// holds a delimiter character, the output holds none either, so no
/// unresolved placeholder marker can remain in it.
pub proof fn lemma_rendered_no_markers(t: Seq<char>, c: CtxView)
    requires
        ctx_brace_free(c),
    ensures
        match spec_render(t, c) {
            Ok(v) => brace_free(v),
            Err(_) => true,
        },
{
    lemma_render_from_no_markers(t, c, 0);
}

proof fn lemma_render_from_ok_independent(t: Seq<char>, c1: CtxView, c2: CtxView, i: int)
    ensures
        (spec_render_from(t, c1, i) is Ok) == (spec_render_from(t, c2, i) is Ok),
    decreases t.len() - i, 1int,
{
    if i < t.len() && t[i] == '{' {
        lemma_scan_name_ok_independent(t, c1, c2, i + 1, i + 1);
    } else if i < t.len() && t[i] != '}' {
        lemma_render_from_ok_independent(t, c1, c2, i + 1);
    }
}

proof fn lemma_scan_name_ok_independent(
    t: Seq<char>,
    c1: CtxView,
    c2: CtxView,
    start: int,
    j: int,
)
    ensures
        (spec_scan_name(t, c1, start, j) is Ok) == (spec_scan_name(t, c2, start, j) is Ok),
    decreases t.len() - j, 0int,
{
    if j < t.len() {
        if t[j] == '}' {
            lemma_render_from_ok_independent(t, c1, c2, j + 1);
        } else {
            lemma_scan_name_ok_independent(t, c1, c2, start, j + 1);
        }
    }
}

/// Whether rendering succeeds depends on the template alone, never on the
/// context's values: in particular, identity fields left empty cannot turn a
/// rendering into a failure.
pub proof fn lemma_render_success_independent(t: Seq<char>, c1: CtxView, c2: CtxView)
    ensures
        (spec_render(t, c1) is Ok) == (spec_render(t, c2) is Ok),
{
    lemma_render_from_ok_independent(t, c1, c2, 0);
}

} // verus!
