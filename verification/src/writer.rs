use vstd::prelude::*;

verus! {

use crate::strutil::{
    is_prefix_of, lemma_prefix_until_characterisation, spec_prefix_until, str_concat, str_eq,
    str_starts_with,
};

/// The view of an optional string slice.
pub open spec fn opt_str_view(o: Option<&str>) -> Option<Seq<char>> {
    match o {
        Some(s) => Some(s@),
        None => None,
    }
}

/// The canonical guest mount point that a copied-in host folder appears
/// under.
pub open spec fn spec_guest_root() -> Seq<char> {
    "/root"@
}

/// One argument as the guest sees it: an argument that starts with the
/// mapping's host path is rewritten to live under the mapping's guest mount
/// point; every other argument is kept as it is.
pub open spec fn spec_rewrite_arg_to(arg: Seq<char>, host: Seq<char>, guest: Seq<char>) -> Seq<
    char,
> {
    if is_prefix_of(host, arg) {
        guest + arg.skip(host.len() as int)
    } else {
        arg
    }
}

/// One argument as the guest sees it when the copied-in folder appears under
/// the canonical guest mount point.
pub open spec fn spec_rewrite_arg(arg: Seq<char>, folder: Option<Seq<char>>) -> Seq<char> {
    match folder {
        Some(f) => spec_rewrite_arg_to(arg, f, spec_guest_root()),
        None => arg,
    }
}

/// Rewrites one argument from a mapping's host path to its guest mount
/// point.
pub fn rewrite_arg_to(arg: &str, host: &str, guest: &str) -> (r: String)
    ensures
        r@ == spec_rewrite_arg_to(arg@, host@, guest@),
{
    if str_starts_with(arg, host) {
        let hlen: usize = host.unicode_len();
        let alen: usize = arg.unicode_len();
        let rest = arg.substring_char(hlen, alen);
        proof {
            assert(rest@ =~= arg@.skip(hlen as int));
        }
        str_concat(guest, rest)
    } else {
        String::from_str(arg)
    }
}

/// Rewrites one argument for the guest configuration file.
pub fn rewrite_arg(arg: &str, folder: Option<&str>) -> (r: String)
    ensures
        r@ == spec_rewrite_arg(arg@, opt_str_view(folder)),
{
    match folder {
        None => String::from_str(arg),
        Some(f) => rewrite_arg_to(arg, f, "/root"),
    }
}

/// The host directory a folder mapping names: everything before the first
/// colon, or the whole mapping when no colon is present.
pub open spec fn spec_mapping_host(s: Seq<char>) -> Seq<char> {
    spec_prefix_until(s, ':')
}

/// The guest mount point a folder mapping names: everything after the first
/// colon, or the canonical guest root when no colon is present.
pub open spec fn spec_mapping_guest(s: Seq<char>) -> Seq<char> {
    if spec_prefix_until(s, ':').len() == s.len() {
        spec_guest_root()
    } else {
        s.skip(spec_prefix_until(s, ':').len() as int + 1)
    }
}

/// Splits a folder mapping `host_directory[:/guest/absolute/path]` into the
/// host directory and the guest mount point it maps to.
pub fn parse_folder_mapping(s: &str) -> (r: (String, String))
    ensures
        r.0@ == spec_mapping_host(s@),
        r.1@ == spec_mapping_guest(s@),
{
    let n: usize = s.unicode_len();
    let mut k: usize = 0;
    while k < n
        invariant
            k <= n,
            n == s@.len(),
            forall|j: int| 0 <= j < k ==> s@[j] != ':',
        decreases n - k,
    {
        if s.get_char(k) == ':' {
            let host = String::from_str(s.substring_char(0, k));
            let guest = String::from_str(s.substring_char(k + 1, n));
            proof {
                lemma_prefix_until_characterisation(s@, ':', k as int);
                assert(host@ =~= s@.subrange(0, k as int));
                assert(guest@ =~= s@.skip(k + 1));
            }
            return (host, guest);
        }
        k = k + 1;
    }
    let host = String::from_str(s.substring_char(0, n));
    proof {
        lemma_prefix_until_characterisation(s@, ':', n as int);
        assert(host@ =~= s@.subrange(0, n as int));
        assert(host@ =~= s@);
    }
    (host, String::from_str("/root"))
}

/// Every mapping source is distinct: the invariant a run configuration's
/// copy-in and copy-out sets must satisfy together.
pub open spec fn spec_unique_sources(maps: Seq<(String, String)>) -> bool {
    forall|a: int, b: int|
        #![trigger maps[a], maps[b]]
        0 <= a < b < maps.len() ==> maps[a].0@ != maps[b].0@
}

/// Tests whether every mapping source occurs only once.
pub fn unique_sources(maps: &Vec<(String, String)>) -> (r: bool)
    ensures
        r == spec_unique_sources(maps@),
{
    let n: usize = maps.len();
    let mut i: usize = 0;
    while i < n
        invariant
            i <= n,
            n == maps.len(),
            forall|a: int, b: int|
                #![trigger maps@[a], maps@[b]]
                0 <= a < b < n && a < i ==> maps@[a].0@ != maps@[b].0@,
        decreases n - i,
    {
        let mut j: usize = i + 1;
        while j < n
            invariant
                i < j <= n,
                n == maps.len(),
                forall|b: int| i < b < j ==> maps@[i as int].0@ != (#[trigger] maps@[b]).0@,
            decreases n - j,
        {
            if str_eq(maps[i].0.as_str(), maps[j].0.as_str()) {
                proof {
                    assert(maps@[i as int].0@ == maps@[j as int].0@);
                    assert(!spec_unique_sources(maps@)) by {
                        if spec_unique_sources(maps@) {
                            assert(maps@[i as int].0@ != maps@[j as int].0@);
                        }
                    }
                }
                return false;
            }
            j = j + 1;
        }
        i = i + 1;
    }
    true
}

/// The given lines joined into one text, each line followed by a newline.
pub open spec fn spec_joined_lines(lines: Seq<Seq<char>>) -> Seq<char>
    decreases lines.len(),
{
    if lines.len() == 0 {
        Seq::empty()
    } else {
        spec_joined_lines(lines.drop_last()) + lines.last() + seq!['\n']
    }
}

/// The guest configuration text for a run: one rewritten argument per line.
pub open spec fn spec_redoxerd_config(args: Seq<Seq<char>>, folder: Option<Seq<char>>) -> Seq<
    char,
> {
    spec_joined_lines(args.map_values(|a: Seq<char>| spec_rewrite_arg(a, folder)))
}

/// Renders the guest configuration: the run's argument vector, one argument
/// per line, with arguments under the copied-in folder rewritten to the
/// guest mount point.
pub fn render_redoxerd_config(arguments: &Vec<String>, folder: Option<&str>) -> (r: String)
    ensures
        r@ == spec_redoxerd_config(arguments.deep_view(), opt_str_view(folder)),
{
    let ghost fo = opt_str_view(folder);
    let ghost rw = arguments.deep_view().map_values(|a: Seq<char>| spec_rewrite_arg(a, fo));
    let mut out = String::new();
    let n: usize = arguments.len();
    let mut i: usize = 0;
    proof {
        assert(rw.take(0) =~= Seq::<Seq<char>>::empty());
    }
    while i < n
        invariant
            i <= n,
            n == arguments.len(),
            fo == opt_str_view(folder),
            rw == arguments.deep_view().map_values(|a: Seq<char>| spec_rewrite_arg(a, fo)),
            out@ == spec_joined_lines(rw.take(i as int)),
        decreases n - i,
    {
        let line = rewrite_arg(arguments[i].as_str(), folder);
        proof {
            assert(arguments.deep_view()[i as int] == arguments@[i as int]@);
            assert(rw[i as int] == spec_rewrite_arg(arguments.deep_view()[i as int], fo));
        }
        out.append(line.as_str());
        out.append("\n");
        proof {
            reveal_strlit("\n");
            assert("\n"@ =~= seq!['\n']);
            assert(rw.take(i + 1).drop_last() =~= rw.take(i as int));
            assert(rw.take(i + 1).last() == rw[i as int]);
            assert(out@ =~= spec_joined_lines(rw.take(i + 1)));
        }
        i = i + 1;
    }
    proof {
        assert(rw.take(n as int) =~= rw);
    }
    out
}

/// The view of an optional owned string.
pub open spec fn opt_string_view(o: Option<String>) -> Option<Seq<char>> {
    match o {
        Some(s) => Some(s@),
        None => None,
    }
}

/// A run configuration: the root of the working tree the guest configuration
/// is written into, an optional folder to copy into the guest, and the
/// command to execute in the guest with its arguments.
pub struct RedoxerConfig {
    pub root: String,
    pub folder: Option<String>,
    pub arguments: Vec<String>,
}

/// The ghost counterpart of a parsed run configuration.
pub ghost struct RedoxerConfigModel {
    pub root: Seq<char>,
    pub folder: Option<Seq<char>>,
    pub arguments: Seq<Seq<char>>,
}

/// Option-taking flags carry a value, so a token list is well formed when no
/// `--root` or `--folder` stands last while flags are still being matched.
pub open spec fn exec_args_wf(args: Seq<Seq<char>>, matching: bool) -> bool
    decreases args.len(),
{
    if args.len() == 0 || !matching {
        true
    } else if args[0] == "--root"@ || args[0] == "--folder"@ {
        args.len() >= 2 && exec_args_wf(args.skip(2), true)
    } else if args[0] == "--"@ {
        exec_args_wf(args.skip(1), false)
    } else {
        true
    }
}

/// One pass over the token list: `--root` and `--folder` take the next token
/// as their value, `--` stops flag matching, and the first free token stops
/// flag matching and begins the argument vector.
pub open spec fn spec_parse_exec_args(
    args: Seq<Seq<char>>,
    acc: RedoxerConfigModel,
    matching: bool,
) -> RedoxerConfigModel
    decreases args.len(),
{
    if args.len() == 0 {
        acc
    } else if matching && args[0] == "--root"@ {
        if args.len() >= 2 {
            spec_parse_exec_args(
                args.skip(2),
                RedoxerConfigModel { root: args[1], folder: acc.folder, arguments: acc.arguments },
                true,
            )
        } else {
            acc
        }
    } else if matching && args[0] == "--folder"@ {
        if args.len() >= 2 {
            spec_parse_exec_args(
                args.skip(2),
                RedoxerConfigModel {
                    root: acc.root,
                    folder: Some(args[1]),
                    arguments: acc.arguments,
                },
                true,
            )
        } else {
            acc
        }
    } else if matching && args[0] == "--"@ {
        spec_parse_exec_args(args.skip(1), acc, false)
    } else {
        spec_parse_exec_args(
            args.skip(1),
            RedoxerConfigModel {
                root: acc.root,
                folder: acc.folder,
                arguments: acc.arguments.push(args[0]),
            },
            false,
        )
    }
}

impl RedoxerConfig {
    /// Parses the tokens after the subcommand.  The flags `--root` and
    /// `--folder` take the next token as their value and may be overridden
    /// by later occurrences; `--` or the first free token ends flag
    /// matching, and everything from the first free token on becomes the
    /// argument vector.  `default_root` stands in for the working directory
    /// the configuration would otherwise be written into.
    pub fn new(args: &Vec<String>, default_root: &str) -> (r: RedoxerConfig)
        requires
            exec_args_wf(args.deep_view(), true),
        ensures
            ({
                let m = spec_parse_exec_args(
                    args.deep_view(),
                    RedoxerConfigModel {
                        root: default_root@,
                        folder: None,
                        arguments: Seq::empty(),
                    },
                    true,
                );
                &&& r.root@ == m.root
                &&& opt_string_view(r.folder) == m.folder
                &&& r.arguments.deep_view() == m.arguments
            }),
    {
        let ghost dd = args.deep_view();
        let ghost target = spec_parse_exec_args(
            dd,
            RedoxerConfigModel { root: default_root@, folder: None, arguments: Seq::empty() },
            true,
        );
        let mut root = String::from_str(default_root);
        let mut folder: Option<String> = None;
        let mut arguments: Vec<String> = Vec::new();
        let ghost mut acc_args: Seq<Seq<char>> = Seq::empty();
        let mut matching = true;
        let n: usize = args.len();
        let mut i: usize = 0;
        proof {
            assert(dd.skip(0) =~= dd);
        }
        while i < n
            invariant
                i <= n,
                n == args.len(),
                dd == args.deep_view(),
                exec_args_wf(dd.skip(i as int), matching),
                arguments.len() == acc_args.len(),
                forall|j: int| 0 <= j < acc_args.len() ==> #[trigger] arguments@[j]@ == acc_args[j],
                spec_parse_exec_args(
                    dd.skip(i as int),
                    RedoxerConfigModel {
                        root: root@,
                        folder: opt_string_view(folder),
                        arguments: acc_args,
                    },
                    matching,
                ) == target,
            decreases n - i,
        {
            let ghost s = dd.skip(i as int);
            proof {
                assert(s[0] == dd[i as int]);
                assert(dd[i as int] == args@[i as int]@);
            }
            if matching && str_eq(args[i].as_str(), "--root") {
                proof {
                    assert(s.len() >= 2);
                    assert(s[1] == dd[i as int + 1]);
                    assert(dd[i as int + 1] == args@[i as int + 1]@);
                    assert(s.skip(2) =~= dd.skip(i as int + 2));
                }
                root = args[i + 1].clone();
                i = i + 2;
            } else if matching && str_eq(args[i].as_str(), "--folder") {
                proof {
                    assert(s.len() >= 2);
                    assert(s[1] == dd[i as int + 1]);
                    assert(dd[i as int + 1] == args@[i as int + 1]@);
                    assert(s.skip(2) =~= dd.skip(i as int + 2));
                }
                folder = Some(args[i + 1].clone());
                i = i + 2;
            } else if matching && str_eq(args[i].as_str(), "--") {
                proof {
                    assert(s.skip(1) =~= dd.skip(i as int + 1));
                }
                matching = false;
                i = i + 1;
            } else {
                proof {
                    assert(s.skip(1) =~= dd.skip(i as int + 1));
                }
                let x = args[i].clone();
                proof {
                    assert(x@ == dd[i as int]);
                }
                arguments.push(x);
                proof {
                    acc_args = acc_args.push(dd[i as int]);
                }
                matching = false;
                i = i + 1;
            }
        }
        proof {
            assert(dd.skip(n as int) =~= Seq::<Seq<char>>::empty());
            assert forall|j: int| 0 <= j < acc_args.len() implies arguments.deep_view()[j]
                == acc_args[j] by {
                assert(arguments@[j]@ == acc_args[j]);
            }
            assert(arguments.deep_view() =~= acc_args);
        }
        RedoxerConfig { root, folder, arguments }
    }
}

} // verus!
