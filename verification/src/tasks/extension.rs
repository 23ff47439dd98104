//! The editor extension manager, modeled as an explicit cache of the
//! installed extensions. Running the editor CLI is the caller's part;
//! each operation says which CLI run it owes and keeps the cache exact.

use vstd::prelude::*;

use crate::strutil::{contains_string, str_equal, str_views};

verus! {

/// The installed-extension views with every entry equal to `id` dropped,
/// in order.
pub open spec fn without_id(s: Seq<Seq<char>>, id: Seq<char>) -> Seq<Seq<char>> {
    s.filter(|x: Seq<char>| x != id)
}

/// Whatever `without_id` keeps was installed before and differs from the
/// dropped identifier.
pub proof fn lemma_without_id_subset(s: Seq<Seq<char>>, id: Seq<char>, x: Seq<char>)
    requires
        without_id(s, id).contains(x),
    ensures
        s.contains(x),
        x != id,
    decreases s.len(),
{
    reveal(Seq::filter);
    if s.len() > 0 {
        let dl = s.drop_last();
        if s.last() != id && x == s.last() {
            assert(s[s.len() - 1] == x);
        } else {
            assert(without_id(dl, id).contains(x)) by {
                let t = choose|t: int|
                    0 <= t < without_id(s, id).len() && without_id(s, id)[t] == x;
                if s.last() != id {
                    assert(without_id(s, id) == without_id(dl, id).push(s.last()));
                    if t < without_id(s, id).len() - 1 {
                        assert(without_id(dl, id)[t] == x);
                    }
                } else {
                    assert(without_id(s, id) == without_id(dl, id));
                }
            }
            lemma_without_id_subset(dl, id, x);
            let i = choose|i: int| 0 <= i < dl.len() && dl[i] == x;
            assert(s[i] == x);
        }
    }
}

/// The extension manager: whether management is enabled, and the cached
/// list of installed extensions.
#[derive(Clone, Debug)]
pub struct ExtensionManager {
    /// Extension management can be switched off; operations then change
    /// nothing and ask for no CLI run.
    pub enabled: bool,
    /// The cached installed-extension identifiers.
    pub installed: Vec<String>,
}

impl ExtensionManager {
    /// A manager with an empty cache.
    pub fn new(enabled: bool) -> (r: ExtensionManager)
        ensures
            r.enabled == enabled,
            r.installed@.len() == 0,
    {
        ExtensionManager { enabled, installed: Vec::new() }
    }

    /// Switches extension management off.
    pub fn disable(&mut self)
        ensures
            final(self).enabled == false,
            final(self).installed == old(self).installed,
    {
        self.enabled = false;
    }

    /// Refills the cache from the CLI's extension listing: one
    /// identifier per line.
    pub fn update(&mut self, listing: Vec<String>)
        ensures
            final(self).enabled == old(self).enabled,
            final(self).installed == listing,
    {
        self.installed = listing;
    }

    /// Notes an installation. Yields whether the CLI must be run: only
    /// where management is enabled and the extension is not yet
    /// installed; the cache then gains the identifier.
    pub fn install(&mut self, id: &str) -> (run_needed: bool)
        ensures
            final(self).enabled == old(self).enabled,
            !old(self).enabled ==> !run_needed && final(self).installed == old(self).installed,
            old(self).enabled ==> {
                &&& run_needed == !str_views(old(self).installed@).contains(id@)
                &&& run_needed ==> str_views(final(self).installed@) == str_views(
                    old(self).installed@,
                ).push(id@)
                &&& !run_needed ==> final(self).installed == old(self).installed
            },
    {
        if !self.enabled {
            return false;
        }
        if contains_string(&self.installed, id) {
            return false;
        }
        let ghost old_views = str_views(self.installed@);
        self.installed.push(String::from_str(id));
        assert(str_views(self.installed@) =~= old_views.push(id@));
        true
    }

    /// Notes a removal. Yields whether the CLI must be run: only where
    /// management is enabled and the extension is installed; the cache
    /// then drops every entry carrying the identifier.
    pub fn uninstall(&mut self, id: &str) -> (run_needed: bool)
        ensures
            final(self).enabled == old(self).enabled,
            !old(self).enabled ==> !run_needed && final(self).installed == old(self).installed,
            old(self).enabled ==> {
                &&& run_needed == str_views(old(self).installed@).contains(id@)
                &&& str_views(final(self).installed@) == without_id(
                    str_views(old(self).installed@),
                    id@,
                )
            },
    {
        if !self.enabled {
            return false;
        }
        let run_needed = contains_string(&self.installed, id);
        let mut kept: Vec<String> = Vec::new();
        let mut i: usize = 0;
        proof {
            assert(str_views(self.installed@).subrange(0, 0) =~= Seq::<Seq<char>>::empty());
            reveal(Seq::filter);
            assert(str_views(kept@) =~= Seq::<Seq<char>>::empty().filter(
                |x: Seq<char>| x != id@,
            ));
        }
        while i < self.installed.len()
            invariant
                i <= self.installed@.len(),
                str_views(kept@) == str_views(self.installed@).subrange(0, i as int).filter(
                    |x: Seq<char>| x != id@,
                ),
            decreases self.installed@.len() - i,
        {
            let ghost pre = str_views(self.installed@).subrange(0, i as int);
            let ghost cur = str_views(self.installed@)[i as int];
            if !str_equal(self.installed[i].as_str(), id) {
                let ghost old_kept = str_views(kept@);
                kept.push(self.installed[i].clone());
                proof {
                    assert(str_views(kept@) =~= old_kept.push(cur));
                }
            }
            i = i + 1;
            proof {
                reveal(Seq::filter);
                let post = str_views(self.installed@).subrange(0, i as int);
                assert(post.drop_last() =~= pre);
                assert(post.last() == cur);
            }
        }
        proof {
            assert(str_views(self.installed@).subrange(0, self.installed@.len() as int)
                =~= str_views(self.installed@));
        }
        self.installed = kept;
        run_needed
    }
}

/// The core language extension.
pub fn c_cpp_id() -> (r: &'static str)
    ensures
        r@ == "ms-vscode.cpptools"@,
{
    "ms-vscode.cpptools"
}

/// The native debugger extension for the LLVM families.
pub fn code_lldb_id() -> (r: &'static str)
    ensures
        r@ == "vadimcn.vscode-lldb"@,
{
    "vadimcn.vscode-lldb"
}

/// The "run and pause" helper extension.
pub fn pauser_id() -> (r: &'static str)
    ensures
        r@ == "Guyutongxue.pause-console"@,
{
    "Guyutongxue.pause-console"
}

/// Notes the installation of the "run and pause" helper.
pub fn install_pauser(m: &mut ExtensionManager) -> (run_needed: bool)
    ensures
        old(m).enabled ==> run_needed == !str_views(old(m).installed@).contains(
            "Guyutongxue.pause-console"@,
        ),
        !old(m).enabled ==> !run_needed,
{
    m.install(pauser_id())
}

/// Notes the installation of the core language extension.
pub fn install_c_cpp(m: &mut ExtensionManager) -> (run_needed: bool)
    ensures
        old(m).enabled ==> run_needed == !str_views(old(m).installed@).contains(
            "ms-vscode.cpptools"@,
        ),
        !old(m).enabled ==> !run_needed,
{
    m.install(c_cpp_id())
}

/// Notes the installation of the native debugger extension.
pub fn install_code_lldb(m: &mut ExtensionManager) -> (run_needed: bool)
    ensures
        old(m).enabled ==> run_needed == !str_views(old(m).installed@).contains(
            "vadimcn.vscode-lldb"@,
        ),
        !old(m).enabled ==> !run_needed,
{
    m.install(code_lldb_id())
}

/// The extensions removed as unrecommended, in removal order.
pub fn unrecommended_ids() -> (r: Vec<&'static str>)
    ensures
        str_views_static(r@) =~= unrecommended_spec(),
{
    let mut v: Vec<&'static str> = Vec::new();
    v.push("formulahendry.code-runner");
    v.push("austin.code-gnu-global");
    v.push("danielpinto8zz6.c-cpp-compile-run");
    v.push("mitaki28.vscode-clang");
    v.push("jaycetyle.vscode-gnu-global");
    v.push("franneck94.c-cpp-runner");
    v.push("ajshort.include-autocomplete");
    v.push("xaver.clang-format");
    v.push("jbenden.c-cpp-flylint");
    v
}

/// The views of a vector of static strings.
pub open spec fn str_views_static(parts: Seq<&'static str>) -> Seq<Seq<char>> {
    parts.map_values(|s: &'static str| s@)
}

/// The identifiers of the unrecommended extensions.
pub open spec fn unrecommended_spec() -> Seq<Seq<char>> {
    seq![
        "formulahendry.code-runner"@,
        "austin.code-gnu-global"@,
        "danielpinto8zz6.c-cpp-compile-run"@,
        "mitaki28.vscode-clang"@,
        "jaycetyle.vscode-gnu-global"@,
        "franneck94.c-cpp-runner"@,
        "ajshort.include-autocomplete"@,
        "xaver.clang-format"@,
        "jbenden.c-cpp-flylint"@,
    ]
}

/// Notes the removal of every unrecommended extension, in order, and
/// yields the identifiers whose removal owes a CLI run.
pub fn remove_unrecommended(m: &mut ExtensionManager) -> (to_remove: Vec<&'static str>)
    ensures
        final(m).enabled == old(m).enabled,
        !old(m).enabled ==> to_remove@.len() == 0 && final(m).installed == old(m).installed,
        old(m).enabled ==> forall|j: int|
            0 <= j < unrecommended_spec().len() ==> !str_views(final(m).installed@).contains(
                #[trigger] unrecommended_spec()[j],
            ),
{
    let ids = unrecommended_ids();
    let mut to_remove: Vec<&'static str> = Vec::new();
    if !m.enabled {
        return to_remove;
    }
    let mut i: usize = 0;
    while i < ids.len()
        invariant
            i <= ids@.len(),
            m.enabled == true,
            str_views_static(ids@) =~= unrecommended_spec(),
            forall|j: int|
                0 <= j < i ==> !str_views(m.installed@).contains(
                    #[trigger] str_views_static(ids@)[j],
                ),
        decreases ids@.len() - i,
    {
        let ghost before = str_views(m.installed@);
        let run = m.uninstall(ids[i]);
        if run {
            to_remove.push(ids[i]);
        }
        proof {
            let idv = ids@[i as int]@;
            assert(str_views_static(ids@)[i as int] == idv);
            assert(str_views(m.installed@) == without_id(before, idv));
            assert forall|j: int| 0 <= j < i + 1 implies !str_views(m.installed@).contains(
                #[trigger] str_views_static(ids@)[j],
            ) by {
                let target = str_views_static(ids@)[j];
                if str_views(m.installed@).contains(target) {
                    lemma_without_id_subset(before, idv, target);
                }
            }
        }
        i = i + 1;
    }
    to_remove
}

} // verus!
