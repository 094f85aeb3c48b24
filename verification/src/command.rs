//! The display command template and its instantiation.
//!
//! A command line is one string: the first space-separated token names the
//! program, the remaining tokens are its argument template. A token that is
//! exactly the placeholder marker is replaced by the selected path when the
//! command is built; every other token is passed through literally.

use vstd::prelude::*;

verus! {

/// One token of the argument template.
pub enum CmdLinePart {
    /// Passed through as it stands.
    Literal(String),
    /// Replaced by the selected path.
    Placeholder,
}

/// The ghost shape of one template token.
pub enum CmdPartView {
    Literal(Seq<char>),
    Placeholder,
}

impl DeepView for CmdLinePart {
    type V = CmdPartView;

    open spec fn deep_view(&self) -> CmdPartView {
        match self {
            CmdLinePart::Literal(t) => CmdPartView::Literal(t@),
            CmdLinePart::Placeholder => CmdPartView::Placeholder,
        }
    }
}

/// The marker token that stands for the selected path.
pub open spec fn spec_placeholder() -> Seq<char> {
    "{image}"@
}

/// Splitting at every space character, keeping empty tokens: the result is
/// never empty, and joining it back with single spaces gives the input.
pub open spec fn spec_split_spaces(s: Seq<char>) -> Seq<Seq<char>>
    decreases s.len(),
{
    if s.len() == 0 {
        seq![Seq::<char>::empty()]
    } else if s[0] == ' ' {
        seq![Seq::<char>::empty()] + spec_split_spaces(s.drop_first())
    } else {
        let rest = spec_split_spaces(s.drop_first());
        seq![seq![s[0]] + rest[0]] + rest.drop_first()
    }
}

/// A string without spaces is one token.
proof fn lemma_split_no_space(s: Seq<char>)
    requires
        forall|j: int| 0 <= j < s.len() ==> s[j] != ' ',
    ensures
        spec_split_spaces(s) == seq![s],
    decreases s.len(),
{
    if s.len() == 0 {
        assert(s =~= Seq::<char>::empty());
    } else {
        lemma_split_no_space(s.drop_first());
        assert(seq![s[0]] + s.drop_first() =~= s);
        assert(spec_split_spaces(s) =~= seq![s]);
    }
}

/// Splitting at the first space: the head token is everything before it,
/// and the remaining tokens are the split of everything after it.
proof fn lemma_split_at_first_space(s: Seq<char>, i: int)
    requires
        0 <= i < s.len(),
        s[i] == ' ',
        forall|j: int| 0 <= j < i ==> s[j] != ' ',
    ensures
        spec_split_spaces(s) == seq![s.take(i)] + spec_split_spaces(s.skip(i + 1)),
    decreases i,
{
    if i == 0 {
        assert(s.drop_first() =~= s.skip(1));
        assert(s.take(0) =~= Seq::<char>::empty());
        assert(spec_split_spaces(s) =~= seq![s.take(0)] + spec_split_spaces(s.skip(1)));
    } else {
        let d = s.drop_first();
        lemma_split_at_first_space(d, i - 1);
        assert(d.take(i - 1) =~= s.subrange(1, i));
        assert(d.skip(i) =~= s.skip(i + 1));
        let rest = spec_split_spaces(d);
        assert(rest == seq![s.subrange(1, i)] + spec_split_spaces(s.skip(i + 1)));
        assert(seq![s[0]] + rest[0] =~= s.take(i));
        assert(rest.drop_first() =~= spec_split_spaces(s.skip(i + 1)));
        assert(spec_split_spaces(s) =~= seq![s.take(i)] + spec_split_spaces(s.skip(i + 1)));
    }
}

/// Split a string at every space character, keeping empty tokens, as the
/// configuration's command line is tokenized.
pub fn split_spaces(s: &str) -> (r: Vec<String>)
    ensures
        r.deep_view() == spec_split_spaces(s@),
        r@.len() >= 1,
    decreases s@.len(),
{
    let len = s.unicode_len();
    let mut i: usize = 0;
    while i < len
        invariant_except_break
            i <= len,
            len == s@.len(),
            forall|j: int| 0 <= j < i ==> s@[j] != ' ',
        ensures
            i <= len,
            len == s@.len(),
            forall|j: int| 0 <= j < i ==> s@[j] != ' ',
            i < len ==> s@[i as int] == ' ',
        decreases len - i,
    {
        if s.get_char(i) == ' ' {
            break ;
        }
        i += 1;
    }

    if i == len {
        let mut r: Vec<String> = Vec::new();
        r.push(s.to_owned());
        proof {
            lemma_split_no_space(s@);
            assert(r.deep_view() =~= seq![s@]);
        }
        r
    } else {
        let head = s.substring_char(0, i);
        let tail = s.substring_char(i + 1, len);
        let rest_vec = split_spaces(tail);
        let ghost rest_snap = rest_vec@;
        let ghost rest_deep = rest_vec.deep_view();
        let mut rest_vec = rest_vec;
        let mut r: Vec<String> = Vec::new();
        r.push(head.to_owned());
        r.append(&mut rest_vec);
        proof {
            lemma_split_at_first_space(s@, i as int);
            assert(s@.take(i as int) =~= s@.subrange(0, i as int));
            assert(s@.skip(i as int + 1) =~= s@.subrange(i as int + 1, len as int));
            let target = seq![s@.take(i as int)] + spec_split_spaces(s@.skip(i as int + 1));
            assert(r@ =~= seq![r@[0]] + rest_snap);
            assert forall|k: int| 0 <= k < r.deep_view().len() implies r.deep_view()[k]
                == target[k] by {
                assert(r.deep_view()[k] == r@[k]@);
                if k > 0 {
                    assert(r@[k] == rest_snap[k - 1]);
                    assert(rest_deep[k - 1] == rest_snap[k - 1]@);
                }
            }
            assert(r.deep_view() =~= target);
        }
        r
    }
}

/// What parsing turns one token into.
pub open spec fn spec_parse_token(t: Seq<char>) -> CmdPartView {
    if t == spec_placeholder() {
        CmdPartView::Placeholder
    } else {
        CmdPartView::Literal(t)
    }
}

/// What parsing turns a token list into.
pub open spec fn spec_parse_args(tokens: Seq<Seq<char>>) -> Seq<CmdPartView> {
    Seq::new(tokens.len(), |i: int| spec_parse_token(tokens[i]))
}

/// Turn argument tokens into template parts: exactly the placeholder
/// marker, not a substring match, becomes the placeholder.
pub fn parse_args(tokens: &Vec<String>) -> (r: Vec<CmdLinePart>)
    ensures
        r.deep_view() == spec_parse_args(tokens.deep_view()),
{
    let marker: String = "{image}".to_owned();
    let mut r: Vec<CmdLinePart> = Vec::new();
    let mut i: usize = 0;
    while i < tokens.len()
        invariant
            i <= tokens@.len(),
            r@.len() == i,
            marker@ == spec_placeholder(),
            forall|k: int| 0 <= k < i ==> #[trigger] r@[k].deep_view() == spec_parse_token(
                tokens@[k]@,
            ),
        decreases tokens@.len() - i,
    {
        if tokens[i].eq(&marker) {
            r.push(CmdLinePart::Placeholder);
        } else {
            r.push(CmdLinePart::Literal(tokens[i].clone()));
        }
        i += 1;
    }
    proof {
        assert forall|k: int| 0 <= k < r.deep_view().len() implies r.deep_view()[k]
            == spec_parse_args(tokens.deep_view())[k] by {
            assert(r.deep_view()[k] == r@[k].deep_view());
            assert(tokens.deep_view()[k] == tokens@[k]@);
        }
        assert(r.deep_view() =~= spec_parse_args(tokens.deep_view()));
    }
    r
}

/// The program and argument template the display command is built from.
pub struct CommandTemplate {
    pub program: String,
    pub parts: Vec<CmdLinePart>,
}

/// One concrete invocation: a program and its argument strings.
pub struct CommandLine {
    pub program: String,
    pub args: Vec<String>,
}

/// The arguments a template yields for a path: literals stand, every
/// placeholder becomes the path.
pub open spec fn spec_build_args(parts: Seq<CmdPartView>, path: Seq<char>) -> Seq<Seq<char>> {
    Seq::new(
        parts.len(),
        |i: int|
            match parts[i] {
                CmdPartView::Literal(t) => t,
                CmdPartView::Placeholder => path,
            },
    )
}

impl CommandTemplate {
    /// Build a template from tokens: the first is the program, the rest
    /// the argument template. Without any token there is no command.
    pub fn from_tokens(tokens: &Vec<String>) -> (r: Option<CommandTemplate>)
        ensures
            r is Some <==> tokens@.len() >= 1,
            r matches Some(t) ==> t.program@ == tokens.deep_view()[0] && t.parts.deep_view()
                == spec_parse_args(tokens.deep_view().drop_first()),
    {
        if tokens.len() == 0 {
            return None;
        }
        Some(Self::parse_tokens(tokens))
    }

    /// Parse a whole command line: the first space-separated token is the
    /// program, the rest the argument template.
    pub fn parse(line: &str) -> (r: CommandTemplate)
        ensures
            r.program@ == spec_split_spaces(line@)[0],
            r.parts.deep_view() == spec_parse_args(spec_split_spaces(line@).drop_first()),
    {
        let tokens = split_spaces(line);
        Self::parse_tokens(&tokens)
    }

    /// The template a non-empty token list describes.
    fn parse_tokens(tokens: &Vec<String>) -> (r: CommandTemplate)
        requires
            tokens@.len() >= 1,
        ensures
            r.program@ == tokens.deep_view()[0],
            r.parts.deep_view() == spec_parse_args(tokens.deep_view().drop_first()),
    {
        let program = tokens[0].clone();
        let mut rest: Vec<String> = Vec::new();
        let mut i: usize = 1;
        while i < tokens.len()
            invariant
                1 <= i <= tokens@.len(),
                tokens@.len() >= 1,
                rest@.len() == i - 1,
                forall|k: int| 0 <= k < i - 1 ==> #[trigger] rest@[k]@ == tokens@[k + 1]@,
            decreases tokens@.len() - i,
        {
            rest.push(tokens[i].clone());
            i += 1;
        }
        proof {
            assert forall|k: int| 0 <= k < rest.deep_view().len() implies rest.deep_view()[k]
                == tokens.deep_view().drop_first()[k] by {
                assert(rest.deep_view()[k] == rest@[k]@);
                assert(tokens.deep_view()[k + 1] == tokens@[k + 1]@);
            }
            assert(rest.deep_view() =~= tokens.deep_view().drop_first());
        }
        let parts = parse_args(&rest);
        assert(tokens.deep_view()[0] == tokens@[0]@);
        CommandTemplate { program, parts }
    }

    /// Instantiate the template for a path.
    pub fn build(&self, path: &String) -> (r: CommandLine)
        ensures
            r.program@ == self.program@,
            r.args.deep_view() == spec_build_args(self.parts.deep_view(), path@),
    {
        let mut args: Vec<String> = Vec::new();
        let mut i: usize = 0;
        while i < self.parts.len()
            invariant
                i <= self.parts@.len(),
                args@.len() == i,
                forall|k: int| 0 <= k < i ==> #[trigger] args@[k]@ == (match self.parts@[
                    k
                ].deep_view() {
                    CmdPartView::Literal(t) => t,
                    CmdPartView::Placeholder => path@,
                }),
            decreases self.parts@.len() - i,
        {
            match &self.parts[i] {
                CmdLinePart::Literal(t) => args.push(t.clone()),
                CmdLinePart::Placeholder => args.push(path.clone()),
            }
            i += 1;
        }
        proof {
            assert forall|k: int| 0 <= k < args.deep_view().len() implies args.deep_view()[k]
                == spec_build_args(self.parts.deep_view(), path@)[k] by {
                assert(args.deep_view()[k] == args@[k]@);
                assert(self.parts.deep_view()[k] == self.parts@[k].deep_view());
            }
            assert(args.deep_view() =~= spec_build_args(self.parts.deep_view(), path@));
        }
        CommandLine { program: self.program.clone(), args }
    }
}

} // verus!
