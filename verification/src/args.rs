//! The argument parser: one left-to-right pass over the argument list
//! (program name excluded). `-o`, `-d` and `-v:NAME` each consume the
//! following token as their value; the first token that is none of these
//! is the template path and ends the parse. A flag without a following
//! token, or no template path at all, is a usage error.

use vstd::pervasive::VecAdditionalExecFns;
use vstd::prelude::*;

use crate::errors::{app_error, AppError, ErrorKind};
use crate::pairs::{distinct_keys, lemma_map_of_pairs_at, lemma_map_of_pairs_dom,
    lemma_map_of_pairs_push, lemma_map_of_pairs_update, map_of_pairs};
use crate::text::{has_prefix, str_eq, str_has_prefix};

verus! {

/// The inline overrides of an invocation: a mapping from variable name to
/// value with last-write-wins insertion, held as a list of pairs with
/// pairwise distinct keys.
#[derive(Debug)]
pub struct VarMap {
    entries: Vec<(String, String)>,
}

impl View for VarMap {
    type V = Map<Seq<char>, Seq<char>>;

    closed spec fn view(&self) -> Map<Seq<char>, Seq<char>> {
        map_of_pairs(self.entries.deep_view())
    }
}

impl VarMap {
    /// The pairs as they are stored, in insertion order.
    pub closed spec fn entries_view(&self) -> Seq<(Seq<char>, Seq<char>)> {
        self.entries.deep_view()
    }

    /// The stored keys are pairwise distinct.
    pub closed spec fn wf(&self) -> bool {
        distinct_keys(self.entries.deep_view())
    }

    /// The mapping is the one the stored pairs denote.
    pub proof fn lemma_view_is_entries(&self)
        ensures
            self@ == map_of_pairs(self.entries_view()),
    {
    }

    /// An empty override set.
    pub fn new() -> (r: VarMap)
        ensures
            r@ == Map::<Seq<char>, Seq<char>>::empty(),
            r.wf(),
            r.entries_view() == Seq::<(Seq<char>, Seq<char>)>::empty(),
    {
        let r = VarMap { entries: Vec::new() };
        proof {
            assert(r.entries.deep_view() =~= Seq::<(Seq<char>, Seq<char>)>::empty());
        }
        r
    }

    /// Defines or overwrites one variable.
    pub fn insert(&mut self, key: String, value: String)
        requires
            old(self).wf(),
        ensures
            final(self).wf(),
            final(self)@ == old(self)@.insert(key@, value@),
    {
        let n = self.entries.len();
        let mut i: usize = 0;
        while i < n
            invariant
                i <= n,
                n == self.entries.len(),
                self.entries.deep_view() == old(self).entries.deep_view(),
                distinct_keys(self.entries.deep_view()),
                forall|j: int| 0 <= j < i ==> self.entries.deep_view()[j].0 != key@,
            decreases n - i,
        {
            proof {
                assert(self.entries.deep_view()[i as int] == self.entries[i as int].deep_view());
            }
            if str_eq(self.entries[i].0.as_str(), key.as_str()) {
                let ghost s = self.entries.deep_view();
                self.entries.set(i, (key, value));
                proof {
                    let t = self.entries.deep_view();
                    assert(t =~= s.update(i as int, (s[i as int].0, value@)));
                    lemma_map_of_pairs_update(s, i as int, value@);
                    assert(forall|j: int| 0 <= j < t.len() ==> t[j].0 == s[j].0);
                    assert forall|a: int, b: int| 0 <= a < b < t.len() implies t[a].0 != t[b].0 by {
                        assert(s[a].0 != s[b].0);
                    }
                }
                return ;
            }
            i = i + 1;
        }
        let ghost s = self.entries.deep_view();
        self.entries.push((key, value));
        proof {
            let t = self.entries.deep_view();
            assert(t =~= s.push((key@, value@)));
            lemma_map_of_pairs_push(s, key@, value@);
            assert forall|a: int, b: int| 0 <= a < b < t.len() implies t[a].0 != t[b].0 by {
                if b < s.len() {
                    assert(s[a].0 != s[b].0);
                } else {
                    assert(t[b].0 == key@);
                }
            }
        }
    }

    /// Looks a variable up.
    pub fn get(&self, key: &str) -> (r: Option<&String>)
        requires
            self.wf(),
        ensures
            match r {
                Some(v) => self@.contains_key(key@) && v@ == self@[key@],
                None => !self@.contains_key(key@),
            },
    {
        let n = self.entries.len();
        let mut i: usize = 0;
        while i < n
            invariant
                i <= n,
                n == self.entries.len(),
                self.wf(),
                forall|j: int| 0 <= j < i ==> self.entries.deep_view()[j].0 != key@,
            decreases n - i,
        {
            proof {
                assert(self.entries.deep_view()[i as int] == self.entries[i as int].deep_view());
            }
            if str_eq(self.entries[i].0.as_str(), key) {
                proof {
                    lemma_map_of_pairs_at(self.entries.deep_view(), i as int);
                }
                return Some(&self.entries[i].1);
            }
            i = i + 1;
        }
        proof {
            lemma_map_of_pairs_dom(self.entries.deep_view(), key@);
        }
        None
    }

    /// How many variables are set.
    pub fn entry_count(&self) -> (n: usize)
        ensures
            n == self.entries_view().len(),
    {
        self.entries.len()
    }

    /// The pair at one position of the stored list.
    pub fn entry_at(&self, i: usize) -> (e: &(String, String))
        requires
            i < self.entries_view().len(),
        ensures
            e.deep_view() == self.entries_view()[i as int],
    {
        &self.entries[i]
    }
}

/// What an invocation asks for: the template path, the optional data and
/// output paths, and the inline overrides.
pub struct CmdView {
    pub tpl: Seq<char>,
    pub data: Option<Seq<char>>,
    pub out: Option<Seq<char>>,
    pub vars: Map<Seq<char>, Seq<char>>,
}

/// The two ways an invocation can be malformed.
pub enum UsageIssue {
    /// The arguments ran out before a template path was seen.
    NoTemplate,
    /// The named flag stood last, with no token left for its value.
    MissingValue(Seq<char>),
}

/// The message reported for a malformed invocation.
pub open spec fn usage_issue_message(u: UsageIssue) -> Seq<char> {
    match u {
        UsageIssue::NoTemplate => "no template path supplied"@,
        UsageIssue::MissingValue(flag) => "missing value for flag "@ + flag,
    }
}

/// Whether a token names an inline override, `-v:NAME`.
pub open spec fn is_var_flag(a: Seq<char>) -> bool {
    has_prefix(a, "-v:"@)
}

/// The variable name carried by a `-v:NAME` token.
pub open spec fn var_name(a: Seq<char>) -> Seq<char> {
    a.skip(3)
}

/// One step per token pair: what the parse yields from position `i`
/// onward, given what the flags seen so far have set.
pub open spec fn parse_from(
    args: Seq<Seq<char>>,
    i: int,
    data: Option<Seq<char>>,
    out: Option<Seq<char>>,
    vars: Map<Seq<char>, Seq<char>>,
) -> Result<CmdView, UsageIssue>
    decreases args.len() - i when 0 <= i
{
    if i >= args.len() {
        Err(UsageIssue::NoTemplate)
    } else {
        let a = args[i];
        if a == "-o"@ {
            if i + 1 < args.len() {
                parse_from(args, i + 2, data, Some(args[i + 1]), vars)
            } else {
                Err(UsageIssue::MissingValue(a))
            }
        } else if a == "-d"@ {
            if i + 1 < args.len() {
                parse_from(args, i + 2, Some(args[i + 1]), out, vars)
            } else {
                Err(UsageIssue::MissingValue(a))
            }
        } else if is_var_flag(a) {
            if i + 1 < args.len() {
                parse_from(args, i + 2, data, out, vars.insert(var_name(a), args[i + 1]))
            } else {
                Err(UsageIssue::MissingValue(a))
            }
        } else if a.len() == 0 {
            Err(UsageIssue::NoTemplate)
        } else {
            Ok(CmdView { tpl: a, data, out, vars })
        }
    }
}

/// What the full argument list (program name excluded) parses to.
pub open spec fn parse_cmd(args: Seq<Seq<char>>) -> Result<CmdView, UsageIssue> {
    parse_from(args, 0, None, None, Map::empty())
}

/// Law: a `-v:NAME VALUE` token pair, for any name and any value (the
/// empty value included), parses into the single override NAME to VALUE,
/// whatever non-flag token then serves as template path.
pub proof fn lemma_var_flag_yields_override(name: Seq<char>, value: Seq<char>, tpl: Seq<char>)
    requires
        tpl != "-o"@,
        tpl != "-d"@,
        !is_var_flag(tpl),
        tpl.len() > 0,
    ensures
        ({
            let r = parse_cmd(seq!["-v:"@ + name, value, tpl]);
            r matches Ok(c) && c.vars == Map::<Seq<char>, Seq<char>>::empty().insert(name, value)
                && c.tpl == tpl && c.data is None && c.out is None
        }),
{
    reveal_strlit("-v:");
    reveal_strlit("-o");
    reveal_strlit("-d");
    let args = seq!["-v:"@ + name, value, tpl];
    let a0 = "-v:"@ + name;
    assert(args.len() == 3);
    assert(args[0] == a0);
    assert(args[1] == value);
    assert(args[2] == tpl);
    assert(a0.len() >= 3);
    assert(a0 != "-o"@);
    assert(a0 != "-d"@);
    assert(a0.subrange(0, 3) =~= "-v:"@);
    assert(is_var_flag(a0));
    assert(var_name(a0) =~= name);
    let vars1 = Map::<Seq<char>, Seq<char>>::empty().insert(name, value);
    assert(parse_cmd(args) == parse_from(args, 2, None, None, vars1));
    assert(parse_from(args, 2, None, None, vars1) == Ok::<CmdView, UsageIssue>(
        CmdView { tpl, data: None, out: None, vars: vars1 },
    ));
}

/// A `-v:` token that carries this name is exactly the token built
/// from the prefix and the name.
proof fn lemma_var_token_shape(a: Seq<char>, name: Seq<char>)
    requires
        is_var_flag(a),
        var_name(a) == name,
    ensures
        a == "-v:"@ + name,
{
    reveal_strlit("-v:");
    assert(a =~= "-v:"@ + name);
}

/// A variable set in the parse state survives to the command when no
/// later token is the same variable's flag.
proof fn lemma_var_survives(
    args: Seq<Seq<char>>,
    i: int,
    data: Option<Seq<char>>,
    out: Option<Seq<char>>,
    vars: Map<Seq<char>, Seq<char>>,
    name: Seq<char>,
)
    requires
        0 <= i,
        vars.contains_key(name),
        forall|j: int| i <= j < args.len() ==> args[j] != "-v:"@ + name,
    ensures
        parse_from(args, i, data, out, vars) matches Ok(c) ==> c.vars.contains_key(name)
            && c.vars[name] == vars[name],
    decreases args.len() - i,
{
    if i < args.len() {
        let a = args[i];
        if a == "-o"@ {
            if i + 1 < args.len() {
                lemma_var_survives(args, i + 2, data, Some(args[i + 1]), vars, name);
            }
        } else if a == "-d"@ {
            if i + 1 < args.len() {
                lemma_var_survives(args, i + 2, Some(args[i + 1]), out, vars, name);
            }
        } else if is_var_flag(a) {
            if i + 1 < args.len() {
                assert(var_name(a) != name) by {
                    if var_name(a) == name {
                        lemma_var_token_shape(a, name);
                        assert(false);
                    }
                }
                lemma_var_survives(
                    args,
                    i + 2,
                    data,
                    out,
                    vars.insert(var_name(a), args[i + 1]),
                    name,
                );
            }
        }
    }
}

/// Law: wherever the parse meets the adjacent tokens `-v:NAME VALUE` —
/// at any position, from any state, for any name and any value, the
/// empty value included — and later yields a command without meeting
/// another `-v:NAME` flag, the command's overrides hold VALUE under
/// NAME.
pub proof fn lemma_var_pair_sets_override(
    args: Seq<Seq<char>>,
    i: int,
    data: Option<Seq<char>>,
    out: Option<Seq<char>>,
    vars: Map<Seq<char>, Seq<char>>,
    name: Seq<char>,
    value: Seq<char>,
)
    requires
        0 <= i,
        i + 1 < args.len(),
        args[i] == "-v:"@ + name,
        args[i + 1] == value,
        forall|j: int| i + 2 <= j < args.len() ==> args[j] != "-v:"@ + name,
    ensures
        parse_from(args, i, data, out, vars) matches Ok(c) ==> c.vars.contains_key(name)
            && c.vars[name] == value,
{
    reveal_strlit("-v:");
    reveal_strlit("-o");
    reveal_strlit("-d");
    let a = args[i];
    assert(a.len() >= 3);
    assert(a != "-o"@);
    assert(a != "-d"@);
    assert(a.subrange(0, 3) =~= "-v:"@);
    assert(is_var_flag(a));
    assert(var_name(a) =~= name);
    assert(parse_from(args, i, data, out, vars) == parse_from(
        args,
        i + 2,
        data,
        out,
        vars.insert(name, value),
    ));
    lemma_var_survives(args, i + 2, data, out, vars.insert(name, value), name);
}

/// Law: an invocation with no arguments at all yields the no-template
/// usage issue; nothing else is produced.
pub proof fn lemma_no_arguments_rejected()
    ensures
        parse_cmd(Seq::<Seq<char>>::empty()) == Err::<CmdView, UsageIssue>(UsageIssue::NoTemplate),
{
}

/// The command an invocation described: template path, optional data file
/// path, optional output path, inline overrides.
#[derive(Debug)]
pub struct CmdOption {
    pub tpl_path: String,
    pub data_path: Option<String>,
    pub out_path: Option<String>,
    pub vars: VarMap,
}

impl View for CmdOption {
    type V = CmdView;

    open spec fn view(&self) -> CmdView {
        CmdView {
            tpl: self.tpl_path@,
            data: self.data_path.deep_view(),
            out: self.out_path.deep_view(),
            vars: self.vars@,
        }
    }
}

impl CmdOption {
    /// The override list is well formed.
    pub open spec fn wf(&self) -> bool {
        self.vars.wf()
    }
}

/// A usage error for a flag that stands last, with no value token left.
fn missing_value_error(flag: &String) -> (r: AppError)
    ensures
        r.kind == ErrorKind::Usage,
        r.message@ == usage_issue_message(UsageIssue::MissingValue(flag@)),
{
    let mut m = "missing value for flag ".to_owned();
    m.append(flag.as_str());
    app_error(ErrorKind::Usage, m)
}

/// Parses the argument list, program name excluded, into a command.
///
/// Exactly the malformed lists of `parse_cmd` are rejected, as usage
/// errors with the message of the issue found.
pub fn load_args(args: &Vec<String>) -> (r: Result<CmdOption, AppError>)
    ensures
        ({
            let p = parse_cmd(args.deep_view());
            match r {
                Ok(cmd) => cmd.wf() && (p matches Ok(c) && cmd@ == c),
                Err(e) => e.kind == ErrorKind::Usage && (p matches Err(u) && e.message@
                    == usage_issue_message(u)),
            }
        }),
{
    let ghost av = args.deep_view();
    let mut i: usize = 0;
    let mut data_path: Option<String> = None;
    let mut out_path: Option<String> = None;
    let mut vars = VarMap::new();
    while i < args.len()
        invariant
            i <= args.len(),
            av == args.deep_view(),
            av.len() == args.len(),
            vars.wf(),
            parse_from(av, i as int, data_path.deep_view(), out_path.deep_view(), vars@)
                == parse_cmd(av),
        decreases args.len() - i,
    {
        proof {
            assert(av[i as int] == args[i as int]@);
        }
        let a = &args[i];
        if str_eq(a.as_str(), "-o") {
            if i + 1 < args.len() {
                proof {
                    assert(av[i as int + 1] == args[i as int + 1]@);
                }
                out_path = Some(args[i + 1].clone());
                i = i + 2;
            } else {
                return Err(missing_value_error(a));
            }
        } else if str_eq(a.as_str(), "-d") {
            if i + 1 < args.len() {
                proof {
                    assert(av[i as int + 1] == args[i as int + 1]@);
                }
                data_path = Some(args[i + 1].clone());
                i = i + 2;
            } else {
                return Err(missing_value_error(a));
            }
        } else if str_has_prefix(a.as_str(), "-v:") {
            proof {
                reveal_strlit("-v:");
            }
            if i + 1 < args.len() {
                proof {
                    assert(av[i as int + 1] == args[i as int + 1]@);
                }
                let a_str = a.as_str();
                let name = a_str.substring_char(3, a_str.unicode_len()).to_owned();
                proof {
                    assert(name@ =~= var_name(a@));
                }
                vars.insert(name, args[i + 1].clone());
                i = i + 2;
            } else {
                return Err(missing_value_error(a));
            }
        } else if a.as_str().unicode_len() == 0 {
            return Err(app_error(ErrorKind::Usage, "no template path supplied".to_owned()));
        } else {
            return Ok(CmdOption { tpl_path: a.clone(), data_path, out_path, vars });
        }
    }
    Err(app_error(ErrorKind::Usage, "no template path supplied".to_owned()))
}

} // verus!
