//! Conditional argument templates: rendering, rule filtering, flattening
//! of delimited sub-lists, and `${key}` placeholder substitution.

use vstd::prelude::*;
use crate::configuration::MinecraftConfiguration;
use crate::datamap::DataMap;
use crate::rules::{opt_rules_view, rules_pass, spec_rules_pass, OsKind, Rule};
use crate::text::{
    chars_to_string, find_char_from, spec_find_from, spec_join, spec_split, spec_trim, split_char,
    str_to_chars, subrange_chars, trim_spaces,
};
use crate::util::{java_separator, spec_java_separator};

verus! {

/// A template's value: one string, or a list joined with the platform's
/// path-list separator when rendered.
#[derive(Debug, Clone)]
pub enum ArgumentValue {
    String(String),
    Array(Vec<String>),
}

/// One argument template with the rules gating it.
#[derive(Debug, Clone)]
pub struct Argument {
    pub value: ArgumentValue,
    pub rules: Option<Vec<Rule>>,
}

/// The manifest's two template lists.
#[derive(Debug, Clone)]
pub struct Arguments {
    /// JVM arguments: memory allocation, garbage collector selection,
    /// environment values, and the like.
    pub jvm: Vec<Argument>,
    /// Arguments handed to the game: username, version, window size.
    pub game: Vec<Argument>,
}

/// What rendering a value yields: the string itself, or the array's items
/// joined with the platform's path-list separator.
pub open spec fn spec_value_render(v: ArgumentValue, os: OsKind) -> Seq<char> {
    match v {
        ArgumentValue::String(s) => s@,
        ArgumentValue::Array(a) => spec_join(a.deep_view(), spec_java_separator(os)),
    }
}

/// What rendering a template yields: the empty string when its rule set
/// fails, its value rendered otherwise.
pub open spec fn spec_arg_render(arg: Argument, os: OsKind) -> Seq<char> {
    if spec_rules_pass(opt_rules_view(arg.rules), os) {
        spec_value_render(arg.value, os)
    } else {
        Seq::empty()
    }
}

/// Trims every part and drops the empty ones, keeping order.
pub open spec fn spec_clean_parts(parts: Seq<Seq<char>>) -> Seq<Seq<char>>
    decreases parts.len(),
{
    if parts.len() == 0 {
        Seq::empty()
    } else {
        let prefix = spec_clean_parts(parts.drop_last());
        let t = spec_trim(parts.last());
        if t.len() == 0 {
            prefix
        } else {
            prefix.push(t)
        }
    }
}

/// What one rendered string contributes to the flat argument list: its
/// `;`-separated parts, trimmed, with empty parts dropped.
pub open spec fn spec_flatten_str(s: Seq<char>) -> Seq<Seq<char>> {
    spec_clean_parts(spec_split(s, ';'))
}

/// What one template contributes to the flat argument list.
pub open spec fn spec_collect_one(arg: Argument, os: OsKind) -> Seq<Seq<char>> {
    spec_flatten_str(spec_arg_render(arg, os))
}

/// What a template list contributes: each template's parts in order.
pub open spec fn spec_collect(args: Seq<Argument>, os: OsKind) -> Seq<Seq<char>>
    decreases args.len(),
{
    if args.len() == 0 {
        Seq::empty()
    } else {
        spec_collect(args.drop_last(), os) + spec_collect_one(args.last(), os)
    }
}

/// Turns a list of strings into their character vectors.
fn strings_to_char_vecs(a: &Vec<String>) -> (r: Vec<Vec<char>>)
    ensures
        r.deep_view() == a.deep_view(),
{
    let mut r: Vec<Vec<char>> = Vec::new();
    let mut i: usize = 0;
    while i < a.len()
        invariant
            i <= a.len(),
            r@.len() == i,
            forall|j: int| 0 <= j < i ==> r.deep_view()[j] == a.deep_view()[j],
        decreases a.len() - i,
    {
        r.push(str_to_chars(a[i].as_str()));
        i += 1;
    }
    proof {
        assert(r.deep_view() =~~= a.deep_view());
    }
    r
}

impl ArgumentValue {
    /// Renders the value: an array is joined with the platform's path-list
    /// separator.
    pub fn render(&self, os: OsKind) -> (r: String)
        ensures
            r@ == spec_value_render(*self, os),
    {
        match self {
            ArgumentValue::String(s) => s.clone(),
            ArgumentValue::Array(a) => {
                let parts = strings_to_char_vecs(a);
                let joined = crate::text::join_with(&parts, java_separator(os));
                chars_to_string(&joined)
            },
        }
    }
}

impl Argument {
    /// Renders the template: the empty string when any of its rules fails
    /// on `os`, its value otherwise.
    pub fn render(&self, os: OsKind) -> (r: String)
        ensures
            r@ == spec_arg_render(*self, os),
    {
        if !rules_pass(&self.rules, os) {
            return String::new();
        }
        self.value.render(os)
    }
}

/// Flattens a template list: renders each template, splits the rendering
/// on `;`, trims each part and keeps the non-empty ones, in order.
pub fn collect_arguments(args: &Vec<Argument>, os: OsKind) -> (r: Vec<String>)
    ensures
        r.deep_view() == spec_collect(args@, os),
{
    let mut out: Vec<String> = Vec::new();
    let mut i: usize = 0;
    proof {
        assert(out.deep_view() =~~= spec_collect(args@.take(0), os));
    }
    while i < args.len()
        invariant
            i <= args.len(),
            out.deep_view() == spec_collect(args@.take(i as int), os),
        decreases args.len() - i,
    {
        let rendered = args[i].render(os);
        let chars = str_to_chars(rendered.as_str());
        let parts = split_char(&chars, ';');
        let ghost base = out.deep_view();
        let mut j: usize = 0;
        proof {
            assert(spec_clean_parts(parts.deep_view().take(0)) =~~= Seq::<Seq<char>>::empty());
            assert(base + spec_clean_parts(parts.deep_view().take(0)) =~~= base);
        }
        while j < parts.len()
            invariant
                j <= parts.len(),
                i < args.len(),
                parts.deep_view() == spec_split(spec_arg_render(args@[i as int], os), ';'),
                out.deep_view() == base + spec_clean_parts(parts.deep_view().take(j as int)),
            decreases parts.len() - j,
        {
            proof {
                assert(parts.deep_view().take(j + 1).drop_last() =~~= parts.deep_view().take(
                    j as int,
                ));
                assert(parts.deep_view().take(j + 1).last() == parts.deep_view()[j as int]);
            }
            let trimmed = trim_spaces(&parts[j]);
            proof {
                assert(parts@[j as int]@ == parts.deep_view()[j as int]);
            }
            if trimmed.len() > 0 {
                let ghost pre = out.deep_view();
                out.push(chars_to_string(&trimmed));
                proof {
                    assert(out.deep_view() =~~= pre.push(trimmed@));
                    assert(spec_clean_parts(parts.deep_view().take(j + 1)) == spec_clean_parts(
                        parts.deep_view().take(j as int),
                    ).push(spec_trim(parts.deep_view()[j as int])));
                    assert(out.deep_view() =~~= base + spec_clean_parts(
                        parts.deep_view().take(j + 1),
                    ));
                }
            }
            j += 1;
        }
        proof {
            assert(parts.deep_view().take(parts.deep_view().len() as int) =~~= parts.deep_view());
            assert(args@.take(i + 1).drop_last() =~= args@.take(i as int));
            assert(args@.take(i + 1).last() == args@[i as int]);
            assert(out.deep_view() =~~= spec_collect(args@.take(i + 1), os));
        }
        i += 1;
    }
    proof {
        assert(args@.take(args@.len() as int) =~= args@);
    }
    out
}

/// Whether a `${key}` placeholder with a non-empty key opens at index `i`.
pub open spec fn spec_is_ph_at(s: Seq<char>, i: int) -> bool {
    &&& 0 <= i
    &&& i + 1 < s.len()
    &&& s[i] == '$'
    &&& s[i + 1] == '{'
    &&& match spec_find_from(s, i + 2, '}') {
        Some(j) => j > i + 2,
        None => false,
    }
}

/// The index of the `}` closing the placeholder opening at `i`.
pub open spec fn spec_ph_end(s: Seq<char>, i: int) -> int {
    spec_find_from(s, i + 2, '}')->Some_0
}

/// The substitution of `s` from index `i` on: each `${key}` occurrence is
/// replaced by `m[key]` when the key is bound, left as written otherwise;
/// replacement values are not scanned again.
pub open spec fn spec_subst_from(s: Seq<char>, m: Map<Seq<char>, Seq<char>>, i: int) -> Seq<char>
    decreases s.len() - i,
    via spec_subst_from_decreases
{
    if i < 0 || i >= s.len() {
        Seq::empty()
    } else if spec_is_ph_at(s, i) {
        let j = spec_ph_end(s, i);
        let key = s.subrange(i + 2, j);
        (if m.contains_key(key) {
            m[key]
        } else {
            s.subrange(i, j + 1)
        }) + spec_subst_from(s, m, j + 1)
    } else {
        seq![s[i]] + spec_subst_from(s, m, i + 1)
    }
}

#[via_fn]
proof fn spec_subst_from_decreases(s: Seq<char>, m: Map<Seq<char>, Seq<char>>, i: int) {
    if 0 <= i && i < s.len() && spec_is_ph_at(s, i) {
        crate::text::lemma_find_from_bounds(s, i + 2, '}');
    }
}

/// The substitution of the whole of `s`.
pub open spec fn spec_subst(s: Seq<char>, m: Map<Seq<char>, Seq<char>>) -> Seq<char> {
    spec_subst_from(s, m, 0)
}

/// Substitutes every `${key}` placeholder of `s` whose key is bound in
/// `map`, leaving unknown placeholders untouched.
pub fn substitute(s: &Vec<char>, map: &DataMap) -> (r: Vec<char>)
    ensures
        r@ == spec_subst(s@, map@),
{
    let mut out: Vec<char> = Vec::new();
    let mut i: usize = 0;
    proof {
        assert(out@ + spec_subst_from(s@, map@, 0) =~= spec_subst(s@, map@));
    }
    while i < s.len()
        invariant
            i <= s.len(),
            out@ + spec_subst_from(s@, map@, i as int) == spec_subst(s@, map@),
        decreases s.len() - i,
    {
        let mut plain = true;
        if s[i] == '$' && i + 1 < s.len() {
            if s[i + 1] == '{' {
                match find_char_from(s, i + 2, '}') {
                    Some(j) => {
                        if j > i + 2 {
                            proof {
                                crate::text::lemma_find_from_bounds(s@, i + 2, '}');
                                assert(spec_is_ph_at(s@, i as int));
                                assert(spec_ph_end(s@, i as int) == j as int);
                            }
                            let key = chars_to_string(&subrange_chars(s, i + 2, j));
                            let ghost before = out@;
                            match map.get(&key) {
                                Some(v) => {
                                    let mut chunk = str_to_chars(v.as_str());
                                    out.append(&mut chunk);
                                },
                                None => {
                                    let mut chunk = subrange_chars(s, i, j + 1);
                                    out.append(&mut chunk);
                                },
                            }
                            proof {
                                assert(out@ + spec_subst_from(s@, map@, j + 1) =~= before
                                    + spec_subst_from(s@, map@, i as int));
                            }
                            i = j + 1;
                            plain = false;
                        }
                    },
                    None => {},
                }
            }
        }
        if plain {
            proof {
                assert(!spec_is_ph_at(s@, i as int));
            }
            let ghost before = out@;
            let c = s[i];
            out.push(c);
            proof {
                assert(out@ + spec_subst_from(s@, map@, i + 1) =~= before + spec_subst_from(
                    s@,
                    map@,
                    i as int,
                ));
            }
            i += 1;
        }
    }
    proof {
        assert(out@ =~= spec_subst(s@, map@));
    }
    out
}

/// The agent argument injected ahead of the JVM templates when an authlib
/// server is configured.
pub open spec fn spec_authlib_agent_arg(version: Seq<char>) -> Seq<char> {
    "-javaagent:${libraries_dir}/moe/yushi/authlibinjector/"@ + version + "/authlibinjector-"@
        + version + ".jar=${authlib_server}"@
}

/// Builds the authlib-injector agent argument for the given injector
/// version.
pub fn authlib_agent_argument(version: &str) -> (r: String)
    ensures
        r@ == spec_authlib_agent_arg(version@),
{
    let mut out = "-javaagent:${libraries_dir}/moe/yushi/authlibinjector/".to_owned();
    out.append(version);
    out.append("/authlibinjector-");
    out.append(version);
    out.append(".jar=${authlib_server}");
    proof {
        assert(out@ =~= spec_authlib_agent_arg(version@));
    }
    out
}

/// What the JVM side contributes before substitution: the agent argument's
/// parts first when an authlib server is configured, then the JVM
/// templates' parts.
pub open spec fn spec_jvm_part(
    config: MinecraftConfiguration,
    jvm: Seq<Argument>,
    os: OsKind,
) -> Seq<Seq<char>> {
    (match config.session.authlib_server {
        Some(al) => spec_flatten_str(spec_authlib_agent_arg(al.version@)),
        None => Seq::empty(),
    }) + spec_collect(jvm, os)
}

/// What the game side contributes before substitution: the game templates'
/// parts, then one entry each for width, height and fullscreen where the
/// window configuration sets them.
pub open spec fn spec_game_part(
    config: MinecraftConfiguration,
    game: Seq<Argument>,
    os: OsKind,
) -> Seq<Seq<char>> {
    spec_collect(game, os) + (if config.window.width is Some {
        spec_flatten_str("--width; ${width}"@)
    } else {
        Seq::empty()
    }) + (if config.window.height is Some {
        spec_flatten_str("--height; ${height}"@)
    } else {
        Seq::empty()
    }) + (if config.window.fullscreen is Some {
        spec_flatten_str("--fullscreen"@)
    } else {
        Seq::empty()
    })
}

/// Every string of `parts`, substituted against `m`.
pub open spec fn spec_subst_all(parts: Seq<Seq<char>>, m: Map<Seq<char>, Seq<char>>) -> Seq<
    Seq<char>,
> {
    parts.map_values(|p: Seq<char>| spec_subst(p, m))
}

/// What [`Arguments::collect`] returns: the JVM part followed by the game
/// part — configuration-dependent entries included — each string with its
/// placeholders substituted.
pub open spec fn spec_collected_arguments(
    config: MinecraftConfiguration,
    args: Arguments,
    data_map: Map<Seq<char>, Seq<char>>,
    os: OsKind,
) -> Seq<Seq<char>> {
    spec_subst_all(spec_jvm_part(config, args.jvm@, os) + spec_game_part(config, args.game@, os), data_map)
}

/// Flattens one already-rendered string: splits on `;`, trims, drops
/// empties, and substitutes placeholders in each surviving part.
fn flatten_string_into(out: &mut Vec<String>, s: &str, data_map: &DataMap)
    ensures
        final(out).deep_view() == old(out).deep_view() + spec_subst_all(
            spec_flatten_str(s@),
            data_map@,
        ),
{
    let chars = str_to_chars(s);
    let parts = split_char(&chars, ';');
    let ghost base = out.deep_view();
    let mut j: usize = 0;
    proof {
        assert(spec_clean_parts(parts.deep_view().take(0)) =~~= Seq::<Seq<char>>::empty());
        assert(base + spec_subst_all(spec_clean_parts(parts.deep_view().take(0)), data_map@)
            =~~= base);
    }
    while j < parts.len()
        invariant
            j <= parts.len(),
            parts.deep_view() == spec_split(s@, ';'),
            out.deep_view() == base + spec_subst_all(
                spec_clean_parts(parts.deep_view().take(j as int)),
                data_map@,
            ),
        decreases parts.len() - j,
    {
        proof {
            assert(parts.deep_view().take(j + 1).drop_last() =~~= parts.deep_view().take(j as int));
            assert(parts.deep_view().take(j + 1).last() == parts.deep_view()[j as int]);
        }
        let trimmed = trim_spaces(&parts[j]);
        proof {
            assert(parts@[j as int]@ == parts.deep_view()[j as int]);
        }
        if trimmed.len() > 0 {
            let substituted = substitute(&trimmed, data_map);
            let ghost pre = out.deep_view();
            out.push(chars_to_string(&substituted));
            proof {
                let t = spec_trim(parts.deep_view()[j as int]);
                assert(out.deep_view() =~~= pre.push(substituted@));
                assert(spec_clean_parts(parts.deep_view().take(j + 1)) == spec_clean_parts(
                    parts.deep_view().take(j as int),
                ).push(t));
                assert(spec_subst_all(spec_clean_parts(parts.deep_view().take(j + 1)), data_map@)
                    =~~= spec_subst_all(
                    spec_clean_parts(parts.deep_view().take(j as int)),
                    data_map@,
                ).push(spec_subst(t, data_map@)));
                assert(out.deep_view() =~~= base + spec_subst_all(
                    spec_clean_parts(parts.deep_view().take(j + 1)),
                    data_map@,
                ));
            }
        } else {
            proof {
                assert(out.deep_view() =~~= base + spec_subst_all(
                    spec_clean_parts(parts.deep_view().take(j + 1)),
                    data_map@,
                ));
            }
        }
        j += 1;
    }
    proof {
        assert(parts.deep_view().take(parts.deep_view().len() as int) =~~= parts.deep_view());
    }
}

/// Flattens a template list into `out`, substituting placeholders.
fn collect_templates_into(
    out: &mut Vec<String>,
    args: &Vec<Argument>,
    data_map: &DataMap,
    os: OsKind,
)
    ensures
        final(out).deep_view() == old(out).deep_view() + spec_subst_all(
            spec_collect(args@, os),
            data_map@,
        ),
{
    let ghost base = out.deep_view();
    let mut i: usize = 0;
    proof {
        assert(base + spec_subst_all(spec_collect(args@.take(0), os), data_map@) =~~= base);
    }
    while i < args.len()
        invariant
            i <= args.len(),
            out.deep_view() == base + spec_subst_all(spec_collect(args@.take(i as int), os), data_map@),
        decreases args.len() - i,
    {
        let rendered = args[i].render(os);
        flatten_string_into(out, rendered.as_str(), data_map);
        proof {
            assert(args@.take(i + 1).drop_last() =~= args@.take(i as int));
            assert(args@.take(i + 1).last() == args@[i as int]);
            assert(out.deep_view() =~~= base + spec_subst_all(
                spec_collect(args@.take(i + 1), os),
                data_map@,
            ));
        }
        i += 1;
    }
    proof {
        assert(args@.take(args@.len() as int) =~= args@);
    }
}

impl Arguments {
    /// Combines the JVM and game templates into the final flat argument
    /// list: injects the configuration-dependent entries (the authlib
    /// agent ahead of the JVM list; width, height and fullscreen after the
    /// game list), filters and flattens every template, and substitutes
    /// `${key}` placeholders from `data_map`. Unknown keys stay as
    /// written; the stage itself cannot fail.
    pub fn collect(&self, config: &MinecraftConfiguration, data_map: &DataMap, os: OsKind) -> (r:
        Vec<String>)
        ensures
            r.deep_view() == spec_collected_arguments(*config, *self, data_map@, os),
    {
        let mut out: Vec<String> = Vec::new();
        match &config.session.authlib_server {
            Some(al) => {
                let agent = authlib_agent_argument(al.version.as_str());
                flatten_string_into(&mut out, agent.as_str(), data_map);
            },
            None => {},
        }
        collect_templates_into(&mut out, &self.jvm, data_map, os);
        let ghost jvm_done = out.deep_view();
        proof {
            assert(jvm_done =~~= spec_subst_all(
                spec_jvm_part(*config, self.jvm@, os),
                data_map@,
            ));
        }
        collect_templates_into(&mut out, &self.game, data_map, os);
        match config.window.width {
            Some(_) => {
                flatten_string_into(&mut out, "--width; ${width}", data_map);
            },
            None => {},
        }
        match config.window.height {
            Some(_) => {
                flatten_string_into(&mut out, "--height; ${height}", data_map);
            },
            None => {},
        }
        match config.window.fullscreen {
            Some(_) => {
                flatten_string_into(&mut out, "--fullscreen", data_map);
            },
            None => {},
        }
        proof {
            assert(out.deep_view() =~~= spec_collected_arguments(*config, *self, data_map@, os));
        }
        out
    }
}


/// A template whose rule set fails contributes nothing to the flat list:
/// it renders as the empty string, which splits into one empty part, which
/// trimming drops.
pub proof fn lemma_failing_template_contributes_nothing(arg: Argument, os: OsKind)
    requires
        !spec_rules_pass(opt_rules_view(arg.rules), os),
    ensures
        spec_collect_one(arg, os) == Seq::<Seq<char>>::empty(),
{
    assert(spec_arg_render(arg, os) == Seq::<char>::empty());
    assert(spec_split(Seq::<char>::empty(), ';') =~~= seq![Seq::<char>::empty()]);
    assert(seq![Seq::<char>::empty()].drop_last() =~~= Seq::<Seq<char>>::empty());
    assert(spec_trim(Seq::<char>::empty()) == Seq::<char>::empty());
    assert(spec_clean_parts(Seq::<Seq<char>>::empty()) == Seq::<Seq<char>>::empty());
    assert(spec_clean_parts(seq![Seq::<char>::empty()]) =~~= Seq::<Seq<char>>::empty());
    assert(spec_collect_one(arg, os) =~~= Seq::<Seq<char>>::empty());
}

/// Whether any `${key}` placeholder opens anywhere in `s`.
pub open spec fn spec_has_placeholder(s: Seq<char>) -> bool {
    exists|i: int| #[trigger] spec_is_ph_at(s, i)
}

proof fn lemma_subst_from_identity(s: Seq<char>, m: Map<Seq<char>, Seq<char>>, i: int)
    requires
        !spec_has_placeholder(s),
        0 <= i <= s.len(),
    ensures
        spec_subst_from(s, m, i) == s.skip(i),
    decreases s.len() - i,
{
    if i == s.len() {
        assert(spec_subst_from(s, m, i) =~= s.skip(i));
    } else {
        assert(!spec_is_ph_at(s, i));
        lemma_subst_from_identity(s, m, i + 1);
        assert(seq![s[i]] + s.skip(i + 1) =~= s.skip(i));
    }
}

/// Substitution leaves a string without placeholders unchanged, whatever
/// the map holds.
pub proof fn lemma_subst_without_placeholders_identity(s: Seq<char>, m: Map<Seq<char>, Seq<char>>)
    requires
        !spec_has_placeholder(s),
    ensures
        spec_subst(s, m) == s,
{
    lemma_subst_from_identity(s, m, 0);
    assert(s.skip(0) =~= s);
}

} // verus!
