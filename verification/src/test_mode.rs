//! Test mode: running the game with only some of its modules, chosen on the
//! command line (`--test auto-queue,text`) or through the environment.
use crate::names::{
    lemma_normalized_idempotent, lemma_normalized_plain, lemma_split_on_no_separator,
    after_prefix, ascii_lowercase, chars_equal, lowercase_chars, normalize_chars, normalized,
    split, split_on, starts_with_char, str_equal, strip_prefix, trimmed, is_blank,
};
use crate::text::chars_of;
use vstd::prelude::*;

verus! {

#[derive(Clone, Copy, Debug, PartialEq, Eq, Hash, Structural)]
pub enum AppModule {
    AutoQueue,
    Text,
    Upgrade,
    Graph,
    MoneyBar,
}

/// The module that a (trimmed, lower-cased) name stands for.
pub open spec fn app_module_named(t: Seq<char>) -> Option<AppModule> {
    if t == "auto-queue"@ || t == "auto_queue"@ || t == "autoqueue"@ || t == "queue"@ || t
        == "auto"@ || t == "keys"@ {
        Some(AppModule::AutoQueue)
    } else if t == "text"@ || t == "typing"@ {
        Some(AppModule::Text)
    } else if t == "upgrade"@ || t == "upgrades"@ || t == "shop"@ {
        Some(AppModule::Upgrade)
    } else if t == "graph"@ || t == "graphs"@ {
        Some(AppModule::Graph)
    } else if t == "money"@ || t == "money-bar"@ || t == "money_bar"@ || t == "moneybar"@ {
        Some(AppModule::MoneyBar)
    } else {
        None
    }
}

pub open spec fn app_module_name(m: AppModule) -> Seq<char> {
    match m {
        AppModule::AutoQueue => "auto-queue"@,
        AppModule::Text => "text"@,
        AppModule::Upgrade => "upgrade"@,
        AppModule::Graph => "graph"@,
        AppModule::MoneyBar => "money-bar"@,
    }
}

fn app_module_of_chars(t: &Vec<char>) -> (r: Option<AppModule>)
    ensures
        r == app_module_named(t@),
{
    if chars_equal(t, "auto-queue") || chars_equal(t, "auto_queue") || chars_equal(t, "autoqueue")
        || chars_equal(t, "queue") || chars_equal(t, "auto") || chars_equal(t, "keys") {
        Some(AppModule::AutoQueue)
    } else if chars_equal(t, "text") || chars_equal(t, "typing") {
        Some(AppModule::Text)
    } else if chars_equal(t, "upgrade") || chars_equal(t, "upgrades") || chars_equal(t, "shop") {
        Some(AppModule::Upgrade)
    } else if chars_equal(t, "graph") || chars_equal(t, "graphs") {
        Some(AppModule::Graph)
    } else if chars_equal(t, "money") || chars_equal(t, "money-bar") || chars_equal(t, "money_bar")
        || chars_equal(t, "moneybar") {
        Some(AppModule::MoneyBar)
    } else {
        None
    }
}

impl AppModule {
    /// Reads a module name, ignoring surrounding whitespace and ASCII case.
    pub fn parse(s: &str) -> (r: Option<AppModule>)
        ensures
            r == app_module_named(normalized(s@)),
            normalized(s@) == "auto-queue"@ || normalized(s@) == "auto_queue"@ || normalized(s@)
                == "autoqueue"@ || normalized(s@) == "queue"@ || normalized(s@) == "auto"@
                || normalized(s@) == "keys"@ ==> r == Some(AppModule::AutoQueue),
            normalized(s@) == "text"@ || normalized(s@) == "typing"@ ==> r == Some(AppModule::Text),
            normalized(s@) == "upgrade"@ || normalized(s@) == "upgrades"@ || normalized(s@)
                == "shop"@ ==> r == Some(AppModule::Upgrade),
            normalized(s@) == "graph"@ || normalized(s@) == "graphs"@ ==> r == Some(
                AppModule::Graph,
            ),
            normalized(s@) == "money"@ || normalized(s@) == "money-bar"@ || normalized(s@)
                == "money_bar"@ || normalized(s@) == "moneybar"@ ==> r == Some(AppModule::MoneyBar),
    {
        let v = chars_of(s);
        let t = normalize_chars(&v);
        let r = app_module_of_chars(&t);
        proof {
            lemma_app_module_aliases(s@);
        }
        r
    }

    /// The module's canonical name.
    pub fn name(&self) -> (r: &'static str)
        ensures
            r@ == app_module_name(*self),
    {
        match self {
            AppModule::AutoQueue => "auto-queue",
            AppModule::Text => "text",
            AppModule::Upgrade => "upgrade",
            AppModule::Graph => "graph",
            AppModule::MoneyBar => "money-bar",
        }
    }
}

/// The set of modules that run in test mode.
#[derive(Clone, Copy, Debug, PartialEq, Eq, Structural)]
pub struct TestMode {
    pub auto_queue: bool,
    pub text: bool,
    pub upgrade: bool,
    pub graph: bool,
    pub money_bar: bool,
}

/// Whether a name given on the command line selects module `m`: `all`
/// (in any ASCII case) selects every module, any other name the module it
/// stands for.
pub open spec fn selects(name: Seq<char>, m: AppModule) -> bool {
    ascii_lowercase(name) == "all"@ || app_module_named(normalized(name)) == Some(m)
}

/// Some of the first `k` names select `m`.
pub open spec fn selected_before(names: Seq<Seq<char>>, k: int, m: AppModule) -> bool {
    exists|i: int| 0 <= i < k && #[trigger] selects(names[i], m)
}

pub open spec fn selected(names: Seq<Seq<char>>, m: AppModule) -> bool {
    selected_before(names, names.len() as int, m)
}

/// Some name selects some module.
pub open spec fn selects_any(names: Seq<Seq<char>>) -> bool {
    selected(names, AppModule::AutoQueue) || selected(names, AppModule::Text) || selected(
        names,
        AppModule::Upgrade,
    ) || selected(names, AppModule::Graph) || selected(names, AppModule::MoneyBar)
}

/// The test mode chosen by a list of names: the modules they select, or the
/// letter machine alone when they select none.
pub open spec fn mode_of_names(names: Seq<Seq<char>>) -> TestMode {
    if selects_any(names) {
        TestMode {
            auto_queue: selected(names, AppModule::AutoQueue),
            text: selected(names, AppModule::Text),
            upgrade: selected(names, AppModule::Upgrade),
            graph: selected(names, AppModule::Graph),
            money_bar: selected(names, AppModule::MoneyBar),
        }
    } else {
        TestMode::only(AppModule::AutoQueue)
    }
}

/// The test mode chosen by a comma-separated list of names.
pub open spec fn mode_of_csv(csv: Seq<char>) -> TestMode {
    mode_of_names(split_on(csv, ','))
}

impl TestMode {
    /// The mode in which `m` alone runs.
    pub open spec fn only(m: AppModule) -> TestMode {
        TestMode {
            auto_queue: m == AppModule::AutoQueue,
            text: m == AppModule::Text,
            upgrade: m == AppModule::Upgrade,
            graph: m == AppModule::Graph,
            money_bar: m == AppModule::MoneyBar,
        }
    }

    /// Whether `m` runs in this mode.
    pub open spec fn has(self, m: AppModule) -> bool {
        match m {
            AppModule::AutoQueue => self.auto_queue,
            AppModule::Text => self.text,
            AppModule::Upgrade => self.upgrade,
            AppModule::Graph => self.graph,
            AppModule::MoneyBar => self.money_bar,
        }
    }

    /// How many modules run.
    pub open spec fn count(self) -> nat {
        (if self.auto_queue {
            1nat
        } else {
            0nat
        }) + (if self.text {
            1nat
        } else {
            0nat
        }) + (if self.upgrade {
            1nat
        } else {
            0nat
        }) + (if self.graph {
            1nat
        } else {
            0nat
        }) + (if self.money_bar {
            1nat
        } else {
            0nat
        })
    }

    /// The modules that run, as a set.
    pub open spec fn modules(self) -> Set<AppModule> {
        Set::new(|m: AppModule| self.has(m))
    }

    fn insert(&mut self, m: AppModule)
        ensures
            forall|n: AppModule| final(self).has(n) == (old(self).has(n) || n == m),
    {
        match m {
            AppModule::AutoQueue => self.auto_queue = true,
            AppModule::Text => self.text = true,
            AppModule::Upgrade => self.upgrade = true,
            AppModule::Graph => self.graph = true,
            AppModule::MoneyBar => self.money_bar = true,
        }
    }

    /// A mode running exactly the given modules.
    pub fn new(modules: Vec<AppModule>) -> (r: TestMode)
        ensures
            forall|m: AppModule| r.has(m) == modules@.contains(m),
    {
        let mut r = TestMode {
            auto_queue: false,
            text: false,
            upgrade: false,
            graph: false,
            money_bar: false,
        };
        let mut i: usize = 0;
        while i < modules.len()
            invariant
                i <= modules@.len(),
                forall|m: AppModule|
                    r.has(m) == exists|k: int| 0 <= k < i && #[trigger] modules@[k] == m,
            decreases modules.len() - i,
        {
            let m = modules[i];
            r.insert(m);
            i = i + 1;
            proof {
                assert forall|n: AppModule|
                    r.has(n) == exists|k: int| 0 <= k < i && #[trigger] modules@[k] == n by {
                    if n == m {
                        assert(modules@[i - 1] == n);
                    }
                }
            }
        }
        r
    }

    /// The mode in which `module` alone runs.
    pub fn single(module: AppModule) -> (r: TestMode)
        ensures
            r == TestMode::only(module),
    {
        let mut r = TestMode {
            auto_queue: false,
            text: false,
            upgrade: false,
            graph: false,
            money_bar: false,
        };
        r.insert(module);
        proof {
            assert(r.has(AppModule::AutoQueue) == (module == AppModule::AutoQueue));
            assert(r.has(AppModule::Text) == (module == AppModule::Text));
            assert(r.has(AppModule::Upgrade) == (module == AppModule::Upgrade));
            assert(r.has(AppModule::Graph) == (module == AppModule::Graph));
            assert(r.has(AppModule::MoneyBar) == (module == AppModule::MoneyBar));
        }
        r
    }

    /// Exactly one module runs, and it is `m`, when the set of running
    /// modules is `{m}`.
    pub proof fn lemma_single_is_singleton(self, m: AppModule)
        ensures
            (self.count() == 1 && self.has(m)) == (self.modules() == set![m]),
    {
        if self.count() == 1 && self.has(m) {
            assert forall|n: AppModule| self.has(n) implies n == m by {
                if n != m {
                    assert(self.count() >= 2) by {
                        match n {
                            AppModule::AutoQueue => {},
                            AppModule::Text => {},
                            AppModule::Upgrade => {},
                            AppModule::Graph => {},
                            AppModule::MoneyBar => {},
                        }
                    }
                }
            }
            assert(self.modules() =~= set![m]);
        }
        if self.modules() == set![m] {
            assert(self.modules().contains(m));
            assert(self.modules().contains(AppModule::AutoQueue) == (m == AppModule::AutoQueue));
            assert(self.modules().contains(AppModule::Text) == (m == AppModule::Text));
            assert(self.modules().contains(AppModule::Upgrade) == (m == AppModule::Upgrade));
            assert(self.modules().contains(AppModule::Graph) == (m == AppModule::Graph));
            assert(self.modules().contains(AppModule::MoneyBar) == (m == AppModule::MoneyBar));
        }
    }

    /// The letter machine alone.
    pub fn auto_queue() -> (r: TestMode)
        ensures
            r == TestMode::only(AppModule::AutoQueue),
    {
        Self::single(AppModule::AutoQueue)
    }

    pub fn is_active(&self, module: AppModule) -> (r: bool)
        ensures
            r == self.has(module),
    {
        match module {
            AppModule::AutoQueue => self.auto_queue,
            AppModule::Text => self.text,
            AppModule::Upgrade => self.upgrade,
            AppModule::Graph => self.graph,
            AppModule::MoneyBar => self.money_bar,
        }
    }

    /// Whether `module` runs and nothing else does.
    pub fn is_single_active(&self, module: AppModule) -> (r: bool)
        ensures
            r == (self.count() == 1 && self.has(module)),
            r == (self.modules() == set![module]),
    {
        proof {
            self.lemma_single_is_singleton(module);
        }
        let mut count: u8 = 0;
        if self.auto_queue {
            count = count + 1;
        }
        if self.text {
            count = count + 1;
        }
        if self.upgrade {
            count = count + 1;
        }
        if self.graph {
            count = count + 1;
        }
        if self.money_bar {
            count = count + 1;
        }
        count == 1 && self.is_active(module)
    }

    /// The one module that runs, if exactly one does.
    pub fn single_active_module(&self) -> (r: Option<AppModule>)
        ensures
            match r {
                Some(m) => self.count() == 1 && self.has(m),
                None => self.count() != 1,
            },
    {
        if self.is_single_active(AppModule::AutoQueue) {
            Some(AppModule::AutoQueue)
        } else if self.is_single_active(AppModule::Text) {
            Some(AppModule::Text)
        } else if self.is_single_active(AppModule::Upgrade) {
            Some(AppModule::Upgrade)
        } else if self.is_single_active(AppModule::Graph) {
            Some(AppModule::Graph)
        } else if self.is_single_active(AppModule::MoneyBar) {
            Some(AppModule::MoneyBar)
        } else {
            None
        }
    }

    fn from_name_chars(names: &Vec<Vec<char>>) -> (r: TestMode)
        ensures
            r == mode_of_names(names@.map_values(|n: Vec<char>| n@)),
    {
        let ghost views = names@.map_values(|n: Vec<char>| n@);
        let mut modules = TestMode {
            auto_queue: false,
            text: false,
            upgrade: false,
            graph: false,
            money_bar: false,
        };
        let mut k: usize = 0;
        while k < names.len()
            invariant
                k <= names@.len(),
                views == names@.map_values(|n: Vec<char>| n@),
                forall|m: AppModule| modules.has(m) == selected_before(views, k as int, m),
            decreases names.len() - k,
        {
            let name = &names[k];
            let lowered = lowercase_chars(name);
            let ghost before = modules;
            if chars_equal(&lowered, "all") {
                modules.insert(AppModule::AutoQueue);
                modules.insert(AppModule::Text);
                modules.insert(AppModule::Upgrade);
                modules.insert(AppModule::Graph);
                modules.insert(AppModule::MoneyBar);
            } else {
                let normal = normalize_chars(name);
                if let Some(m) = app_module_of_chars(&normal) {
                    modules.insert(m);
                }
            }
            proof {
                assert(views[k as int] == name@);
                assert forall|m: AppModule| modules.has(m) == selected_before(
                    views,
                    k + 1,
                    m,
                ) by {
                    if selects(views[k as int], m) {
                        assert(selected_before(views, k + 1, m));
                    }
                    if selected_before(views, k + 1, m) && !selects(views[k as int], m) {
                        let i = choose|i: int| 0 <= i < k + 1 && #[trigger] selects(views[i], m);
                        assert(selected_before(views, k as int, m));
                    }
                    if selected_before(views, k as int, m) {
                        let i = choose|i: int| 0 <= i < k && #[trigger] selects(views[i], m);
                        assert(selected_before(views, k + 1, m));
                    }
                }
            }
            k = k + 1;
        }
        proof {
            assert(views.len() == names@.len());
            assert(modules.has(AppModule::AutoQueue) == selected(views, AppModule::AutoQueue));
            assert(modules.has(AppModule::Text) == selected(views, AppModule::Text));
            assert(modules.has(AppModule::Upgrade) == selected(views, AppModule::Upgrade));
            assert(modules.has(AppModule::Graph) == selected(views, AppModule::Graph));
            assert(modules.has(AppModule::MoneyBar) == selected(views, AppModule::MoneyBar));
        }
        if !(modules.auto_queue || modules.text || modules.upgrade || modules.graph
            || modules.money_bar) {
            modules.insert(AppModule::AutoQueue);
            proof {
                assert(modules.has(AppModule::AutoQueue));
                assert(!modules.has(AppModule::Text));
                assert(!modules.has(AppModule::Upgrade));
                assert(!modules.has(AppModule::Graph));
                assert(!modules.has(AppModule::MoneyBar));
            }
        }
        modules
    }

    /// The mode chosen by a list of module names.
    pub fn from_names(names: &[&str]) -> (r: TestMode)
        ensures
            r == mode_of_names(names@.map_values(|n: &str| n@)),
    {
        let mut chars: Vec<Vec<char>> = Vec::new();
        let mut i: usize = 0;
        while i < names.len()
            invariant
                i <= names@.len(),
                chars@.len() == i,
                forall|j: int| 0 <= j < i ==> #[trigger] chars@[j]@ == names@[j]@,
            decreases names.len() - i,
        {
            chars.push(chars_of(names[i]));
            i = i + 1;
        }
        proof {
            assert(chars@.map_values(|n: Vec<char>| n@) =~= names@.map_values(|n: &str| n@));
        }
        Self::from_name_chars(&chars)
    }

    /// The mode chosen by a comma-separated list of module names.
    pub fn parse_csv(csv: &str) -> (r: TestMode)
        ensures
            r == mode_of_csv(csv@),
    {
        let parts = split(csv, ',');
        let mut chars: Vec<Vec<char>> = Vec::new();
        let mut i: usize = 0;
        while i < parts.len()
            invariant
                i <= parts@.len(),
                chars@.len() == i,
                forall|j: int| 0 <= j < i ==> #[trigger] chars@[j]@ == parts@[j]@,
            decreases parts.len() - i,
        {
            chars.push(chars_of(parts[i].as_str()));
            i = i + 1;
        }
        proof {
            assert(chars@.map_values(|n: Vec<char>| n@) =~= parts@.map_values(|n: String| n@));
        }
        Self::from_name_chars(&chars)
    }
}

/// Whether an argument looks like an option (starts with `-`).
pub open spec fn is_option(arg: Seq<char>) -> bool {
    arg.len() > 0 && arg[0] == '-'
}

/// The save path named in the arguments from index `i` on: the value after
/// `--save` or `-s` (unless that value is itself an option), or after
/// `--save=`; the first one wins.
pub open spec fn save_path_from(args: Seq<Seq<char>>, i: int) -> Option<Seq<char>>
    decreases args.len() - i,
{
    if i < 0 || i >= args.len() {
        None
    } else {
        let arg = args[i];
        if arg == "--save"@ || arg == "-s"@ {
            if i + 1 < args.len() && !is_option(args[i + 1]) {
                Some(args[i + 1])
            } else {
                save_path_from(args, i + 1)
            }
        } else if after_prefix(arg, "--save="@) is Some {
            after_prefix(arg, "--save="@)
        } else {
            save_path_from(args, i + 1)
        }
    }
}

/// Whether the argument names the test-mode option (which takes its value
/// from the next argument).
pub open spec fn is_test_option(arg: Seq<char>) -> bool {
    arg == "--test"@ || arg == "-t"@ || arg == "--test-mode"@ || arg == "--test-module"@ || arg
        == "--module"@
}

/// The value of a test-mode option written with `=`, if the argument is one.
pub open spec fn test_option_value(arg: Seq<char>) -> Option<Seq<char>> {
    if after_prefix(arg, "--test="@) is Some {
        after_prefix(arg, "--test="@)
    } else if after_prefix(arg, "--test-mode="@) is Some {
        after_prefix(arg, "--test-mode="@)
    } else if after_prefix(arg, "--test-module="@) is Some {
        after_prefix(arg, "--test-module="@)
    } else {
        after_prefix(arg, "--module="@)
    }
}

/// The test mode chosen by the environment value (`TEST_MODE`, or else
/// `TEST_MODULE`): none when it is unset or blank.
pub open spec fn env_test_mode(env: Option<Seq<char>>) -> Option<TestMode> {
    match env {
        Some(v) => if trimmed(v).len() > 0 {
            Some(mode_of_csv(v))
        } else {
            None
        },
        None => None,
    }
}

/// The test mode chosen by the arguments from index `i` on, falling back on
/// the environment value. A test-mode option without a value selects the
/// letter machine alone.
pub open spec fn test_mode_from(args: Seq<Seq<char>>, i: int, env: Option<Seq<char>>) -> Option<
    TestMode,
>
    decreases args.len() - i,
{
    if i < 0 || i >= args.len() {
        env_test_mode(env)
    } else {
        let arg = args[i];
        if is_test_option(arg) {
            if i + 1 < args.len() && !is_option(args[i + 1]) {
                Some(mode_of_csv(args[i + 1]))
            } else {
                Some(TestMode::only(AppModule::AutoQueue))
            }
        } else if test_option_value(arg) is Some {
            Some(mode_of_csv(test_option_value(arg)->0))
        } else {
            test_mode_from(args, i + 1, env)
        }
    }
}

/// The views of a list of strings.
pub open spec fn arg_views(args: Seq<String>) -> Seq<Seq<char>> {
    args.map_values(|a: String| a@)
}

/// The save path given with `--save PATH`, `-s PATH` or `--save=PATH`
/// (the program's own name, `args[0]`, is skipped).
pub fn parse_save_path_from_args(args: &[String]) -> (r: Option<String>)
    ensures
        match r {
            Some(p) => save_path_from(arg_views(args@), 1) == Some(p@),
            None => save_path_from(arg_views(args@), 1) is None,
        },
{
    let ghost views = arg_views(args@);
    let mut i: usize = 1;
    while i < args.len()
        invariant
            views == arg_views(args@),
            1 <= i,
            save_path_from(views, 1) == save_path_from(views, i as int),
        decreases args.len() - i,
    {
        let arg = args[i].as_str();
        proof {
            assert(views[i as int] == arg@);
        }
        if str_equal(arg, "--save") || str_equal(arg, "-s") {
            if i + 1 < args.len() && !starts_with_char(args[i + 1].as_str(), '-') {
                proof {
                    assert(views[i + 1] == args@[i + 1]@);
                }
                return Some(args[i + 1].clone());
            }
        } else if let Some(val) = strip_prefix(arg, "--save=") {
            return Some(val);
        }
        i = i + 1;
    }
    None
}

/// Whether `flag` is one of the arguments.
pub fn has_flag(args: &[String], flag: &str) -> (r: bool)
    ensures
        r == exists|i: int| 0 <= i < args@.len() && #[trigger] args@[i]@ == flag@,
{
    let mut i: usize = 0;
    while i < args.len()
        invariant
            i <= args@.len(),
            forall|j: int| 0 <= j < i ==> #[trigger] args@[j]@ != flag@,
        decreases args.len() - i,
    {
        if str_equal(args[i].as_str(), flag) {
            return true;
        }
        i = i + 1;
    }
    false
}

fn test_option_value_of(arg: &str) -> (r: Option<String>)
    ensures
        match r {
            Some(v) => test_option_value(arg@) == Some(v@),
            None => test_option_value(arg@) is None,
        },
{
    if let Some(val) = strip_prefix(arg, "--test=") {
        Some(val)
    } else if let Some(val) = strip_prefix(arg, "--test-mode=") {
        Some(val)
    } else if let Some(val) = strip_prefix(arg, "--test-module=") {
        Some(val)
    } else if let Some(val) = strip_prefix(arg, "--module=") {
        Some(val)
    } else {
        None
    }
}

/// The test mode given on the command line with `--test`, `-t`,
/// `--test-mode`, `--test-module` or `--module` (followed by a value, or
/// with `=`), or else by the environment value `env` (the `TEST_MODE`
/// variable, or else `TEST_MODULE`).
pub fn parse_test_mode_from_args(args: &[String], env: Option<&str>) -> (r: Option<TestMode>)
    ensures
        r == test_mode_from(
            arg_views(args@),
            1,
            match env {
                Some(v) => Some(v@),
                None => None,
            },
        ),
{
    let ghost views = arg_views(args@);
    let ghost env_view = match env {
        Some(v) => Some(v@),
        None => None,
    };
    let mut i: usize = 1;
    while i < args.len()
        invariant
            views == arg_views(args@),
            env_view == match env {
                Some(v) => Some(v@),
                None => None,
            },
            1 <= i,
            test_mode_from(views, 1, env_view) == test_mode_from(views, i as int, env_view),
        decreases args.len() - i,
    {
        let arg = args[i].as_str();
        proof {
            assert(views[i as int] == arg@);
        }
        if str_equal(arg, "--test") || str_equal(arg, "-t") || str_equal(arg, "--test-mode")
            || str_equal(arg, "--test-module") || str_equal(arg, "--module") {
            if i + 1 < args.len() && !starts_with_char(args[i + 1].as_str(), '-') {
                proof {
                    assert(views[i + 1] == args@[i + 1]@);
                }
                return Some(TestMode::parse_csv(args[i + 1].as_str()));
            } else {
                return Some(TestMode::auto_queue());
            }
        } else if let Some(val) = test_option_value_of(arg) {
            return Some(TestMode::parse_csv(val.as_str()));
        }
        i = i + 1;
    }
    match env {
        Some(v) => {
            if !is_blank(v) {
                Some(TestMode::parse_csv(v))
            } else {
                None
            }
        },
        None => None,
    }
}

impl Default for TestMode {
    fn default() -> (r: TestMode)
        ensures
            r == TestMode::only(AppModule::AutoQueue),
    {
        Self::auto_queue()
    }
}


/// Every alias of a module reads as that module, whatever the surrounding
/// whitespace and ASCII case: `auto-queue`, `auto_queue`, `autoqueue`,
/// `queue`, `auto` and `keys` name the letter machine; `text` and `typing`
/// the text pane; `upgrade`, `upgrades` and `shop` the upgrades; `graph` and
/// `graphs` the graphs; `money`, `money-bar`, `money_bar` and `moneybar` the
/// money bar.
#[verifier::spinoff_prover]
#[verifier::rlimit(40)]
pub proof fn lemma_app_module_aliases(s: Seq<char>)
    ensures
        normalized(s) == "auto-queue"@ || normalized(s) == "auto_queue"@ || normalized(s)
            == "autoqueue"@ || normalized(s) == "queue"@ || normalized(s) == "auto"@
            || normalized(s) == "keys"@ ==> app_module_named(normalized(s)) == Some(
            AppModule::AutoQueue,
        ),
        normalized(s) == "text"@ || normalized(s) == "typing"@ ==> app_module_named(normalized(s))
            == Some(AppModule::Text),
        normalized(s) == "upgrade"@ || normalized(s) == "upgrades"@ || normalized(s) == "shop"@
            ==> app_module_named(normalized(s)) == Some(AppModule::Upgrade),
        normalized(s) == "graph"@ || normalized(s) == "graphs"@ ==> app_module_named(normalized(s))
            == Some(AppModule::Graph),
        normalized(s) == "money"@ || normalized(s) == "money-bar"@ || normalized(s)
            == "money_bar"@ || normalized(s) == "moneybar"@ ==> app_module_named(normalized(s))
            == Some(AppModule::MoneyBar),
{
    reveal_strlit("auto-queue");
    reveal_strlit("auto_queue");
    reveal_strlit("autoqueue");
    reveal_strlit("queue");
    reveal_strlit("auto");
    reveal_strlit("keys");
    reveal_strlit("text");
    reveal_strlit("typing");
    reveal_strlit("upgrade");
    reveal_strlit("upgrades");
    reveal_strlit("shop");
    reveal_strlit("graph");
    reveal_strlit("graphs");
    reveal_strlit("money");
    reveal_strlit("money-bar");
    reveal_strlit("money_bar");
    reveal_strlit("moneybar");
    let t = normalized(s);
    if t == "auto-queue"@ {
        assert(t[0] == 'a' && t[4] == '-' && t[5] == 'q');
    }
    if t == "auto_queue"@ {
        assert(t[0] == 'a' && t[4] == '_' && t[5] == 'q');
    }
    if t == "autoqueue"@ {
        assert(t[0] == 'a' && t[4] == 'q' && t[5] == 'u');
    }
    if t == "queue"@ {
        assert(t[0] == 'q' && t[4] == 'e');
    }
    if t == "auto"@ {
        assert(t[0] == 'a');
    }
    if t == "keys"@ {
        assert(t[0] == 'k');
    }
    if t == "text"@ {
        assert(t[0] == 't');
    }
    if t == "typing"@ {
        assert(t[0] == 't' && t[4] == 'n' && t[5] == 'g');
    }
    if t == "upgrade"@ {
        assert(t[0] == 'u' && t[4] == 'a' && t[5] == 'd');
    }
    if t == "upgrades"@ {
        assert(t[0] == 'u' && t[4] == 'a' && t[5] == 'd');
    }
    if t == "shop"@ {
        assert(t[0] == 's');
    }
    if t == "graph"@ {
        assert(t[0] == 'g' && t[4] == 'h');
    }
    if t == "graphs"@ {
        assert(t[0] == 'g' && t[4] == 'h' && t[5] == 's');
    }
    if t == "money"@ {
        assert(t[0] == 'm' && t[4] == 'y');
    }
    if t == "money-bar"@ {
        assert(t[0] == 'm' && t[4] == 'y' && t[5] == '-');
    }
    if t == "money_bar"@ {
        assert(t[0] == 'm' && t[4] == 'y' && t[5] == '_');
    }
    if t == "moneybar"@ {
        assert(t[0] == 'm' && t[4] == 'y' && t[5] == 'b');
    }
}

/// A module's name reads back as that module.
pub proof fn lemma_app_module_name_parses(m: AppModule)
    ensures
        app_module_named(normalized(app_module_name(m))) == Some(m),
        ascii_lowercase(app_module_name(m)) != "all"@,
        forall|i: int|
            0 <= i < app_module_name(m).len() ==> #[trigger] app_module_name(m)[i] != ',',
{
    reveal_strlit("auto-queue");
    reveal_strlit("auto_queue");
    reveal_strlit("autoqueue");
    reveal_strlit("queue");
    reveal_strlit("auto");
    reveal_strlit("keys");
    reveal_strlit("text");
    reveal_strlit("typing");
    reveal_strlit("upgrade");
    reveal_strlit("upgrades");
    reveal_strlit("shop");
    reveal_strlit("graph");
    reveal_strlit("graphs");
    reveal_strlit("money");
    reveal_strlit("money-bar");
    reveal_strlit("money_bar");
    reveal_strlit("moneybar");
    reveal_strlit("all");
    let s = app_module_name(m);
    assert forall|i: int| 0 <= i < s.len() implies !('A' <= #[trigger] s[i] && s[i] <= 'Z') by {}
    lemma_normalized_plain(s);
    assert(ascii_lowercase(s) =~= s);
}

/// Naming one module for test mode runs that module alone.
pub proof fn lemma_single_name_mode(m: AppModule)
    ensures
        mode_of_csv(app_module_name(m)) == TestMode::only(m),
{
    let s = app_module_name(m);
    lemma_app_module_name_parses(m);
    lemma_split_on_no_separator(s, ',');
    let names = split_on(s, ',');
    assert forall|n: AppModule| selected(names, n) == (n == m) by {
        if n == m {
            assert(selects(names[0], n));
        }
    }
}


/// Reading a module name ignores its surrounding whitespace and ASCII case,
/// and `all` names no single module.
pub proof fn lemma_app_parse_ignores_space_and_case(s: Seq<char>)
    ensures
        app_module_named(normalized(normalized(s))) == app_module_named(normalized(s)),
        app_module_named(normalized("all"@)) is None,
{
    lemma_normalized_idempotent(s);
    reveal_strlit("all");
    reveal_strlit("auto-queue");
    reveal_strlit("auto_queue");
    reveal_strlit("autoqueue");
    reveal_strlit("queue");
    reveal_strlit("auto");
    reveal_strlit("keys");
    reveal_strlit("text");
    reveal_strlit("typing");
    reveal_strlit("upgrade");
    reveal_strlit("upgrades");
    reveal_strlit("shop");
    reveal_strlit("graph");
    reveal_strlit("graphs");
    reveal_strlit("money");
    reveal_strlit("money-bar");
    reveal_strlit("money_bar");
    reveal_strlit("moneybar");
    let a = "all"@;
    assert forall|i: int| 0 <= i < a.len() implies !('A' <= #[trigger] a[i] && a[i] <= 'Z') by {}
    lemma_normalized_plain(a);
}

} // verus!
