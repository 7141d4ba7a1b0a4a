//! The per-machine configuration, the registry of machines and the launch
//! argument vector.
//!
//! A `VmConf` is created empty, populated by `load` from the artifact text
//! (one module per section, in the order the parser yields them), and its
//! launch arguments are assembled by `build_args` in module order behind the
//! fixed acceleration flag. Reading the artifact and its owner, executing
//! the privileged plans and spawning the hypervisor happen outside the
//! library.

use vstd::prelude::*;

use crate::conf::ConfError;
use crate::conf::ConfErrorView;
use crate::conf::SectionView;
use crate::conf::parse_sections;
use crate::conf::spec_parse_sections;
use crate::modules::Module;
use crate::modules::ModuleView;
use crate::modules::spec_module_args;
use crate::modules::spec_module_of_section;
use crate::strutil::str_eq;

verus! {

/// One named machine: where its configuration artifact lives, the owner
/// identity inherited from that artifact, and its ordered modules.
pub struct VmConf {
    pub name: String,
    pub filename: String,
    /// The user that will own and run the hypervisor process; equal to the
    /// owning uid of the configuration artifact, the trust anchor.
    pub uid: u32,
    /// The group counterpart of `uid`.
    pub gid: u32,
    pub modules: Vec<Module>,
}

pub ghost struct VmConfView {
    pub name: Seq<char>,
    pub filename: Seq<char>,
    pub uid: u32,
    pub gid: u32,
    pub modules: Seq<ModuleView>,
}

impl DeepView for VmConf {
    type V = VmConfView;

    open spec fn deep_view(&self) -> VmConfView {
        VmConfView {
            name: self.name@,
            filename: self.filename@,
            uid: self.uid,
            gid: self.gid,
            modules: self.modules.deep_view(),
        }
    }
}

/// The modules of the sections from index `i` on, or the first error.
pub open spec fn spec_load_from(secs: Seq<SectionView>, i: nat) -> Result<
    Seq<ModuleView>,
    ConfErrorView,
>
    decreases secs.len() - i,
{
    if i >= secs.len() {
        Ok(seq![])
    } else {
        match spec_module_of_section(secs[i as int]) {
            Err(e) => Err(e),
            Ok(m) => match spec_load_from(secs, i + 1) {
                Err(e) => Err(e),
                Ok(rest) => Ok(seq![m] + rest),
            },
        }
    }
}

/// One module instance per section, in section order, or the first
/// configuration error.
pub open spec fn spec_load_modules(secs: Seq<SectionView>) -> Result<
    Seq<ModuleView>,
    ConfErrorView,
> {
    spec_load_from(secs, 0)
}

proof fn lemma_load_from(secs: Seq<SectionView>, i: nat)
    requires
        i <= secs.len(),
    ensures
        spec_load_from(secs, i) matches Ok(ms) ==> ms.len() == secs.len() - i && forall|j: int|
            i <= j < secs.len() ==> #[trigger] spec_module_of_section(secs[j]) == Ok::<
                ModuleView,
                ConfErrorView,
            >(ms[j - i]),
    decreases secs.len() - i,
{
    if i < secs.len() {
        lemma_load_from(secs, i + 1);
        let cur = spec_module_of_section(secs[i as int]);
        if cur is Ok && spec_load_from(secs, i + 1) is Ok {
            let m = cur->Ok_0;
            let rest = spec_load_from(secs, i + 1)->Ok_0;
            assert(spec_load_from(secs, i) == Ok::<Seq<ModuleView>, ConfErrorView>(
                seq![m] + rest,
            ));
            let ms = seq![m] + rest;
            assert(ms.len() == secs.len() - i);
            assert forall|j: int| i <= j < secs.len() implies #[trigger] spec_module_of_section(
                secs[j],
            ) == Ok::<ModuleView, ConfErrorView>(ms[j - i]) by {
                if j == i {
                    assert(ms[0] == m);
                } else {
                    assert(ms[j - i] == rest[j - (i + 1)]);
                }
            }
        }
    }
}

/// A configuration with N module sections loads into exactly N module
/// instances, in section order: the module at each position is the one its
/// section yields.
pub proof fn lemma_load_preserves_sections(secs: Seq<SectionView>)
    ensures
        spec_load_modules(secs) matches Ok(ms) ==> ms.len() == secs.len() && forall|j: int|
            0 <= j < secs.len() ==> #[trigger] spec_module_of_section(secs[j]) == Ok::<
                ModuleView,
                ConfErrorView,
            >(ms[j]),
{
    lemma_load_from(secs, 0);
}

/// The launch arguments of the modules from index `i` on, concatenated.
pub open spec fn spec_args_tail(ms: Seq<ModuleView>, fds: Seq<Option<u64>>, i: nat) -> Seq<
    Seq<char>,
>
    decreases ms.len() - i,
{
    if i >= ms.len() {
        seq![]
    } else {
        spec_module_args(ms[i as int], fds[i as int]) + spec_args_tail(ms, fds, i + 1)
    }
}

/// The full argument vector: the fixed flag enabling hardware-accelerated
/// virtualization, then every module's launch arguments in declaration
/// order.
pub open spec fn spec_build_args(ms: Seq<ModuleView>, fds: Seq<Option<u64>>) -> Seq<Seq<char>> {
    seq!["-enable-kvm"@] + spec_args_tail(ms, fds, 0)
}

impl VmConf {
    /// A configuration known to the registry but not yet loaded: no owner
    /// identity, no modules.
    pub fn new(name: &str, filename: &str) -> (r: VmConf)
        ensures
            r.name@ == name@,
            r.filename@ == filename@,
            r.uid == 0,
            r.gid == 0,
            r.modules@.len() == 0,
    {
        VmConf {
            name: name.to_owned(),
            filename: filename.to_owned(),
            uid: 0,
            gid: 0,
            modules: Vec::new(),
        }
    }

    /// Populate the configuration from its artifact: `text` is the
    /// artifact's content and `owner_uid`/`owner_gid` its file owner, which
    /// becomes the resource-owner identity. Each section becomes one module,
    /// appended in section order; the first configuration error aborts the
    /// load and leaves the configuration unchanged.
    pub fn load(&mut self, text: &str, owner_uid: u32, owner_gid: u32) -> (r: Result<
        (),
        ConfError,
    >)
        ensures
            match r {
                Ok(_) => {
                    &&& spec_parse_sections(text@) matches Some(secs)
                    &&& spec_load_modules(secs) matches Ok(ms) && final(self).modules.deep_view()
                        == old(self).modules.deep_view() + ms
                    &&& final(self).uid == owner_uid
                    &&& final(self).gid == owner_gid
                    &&& final(self).name == old(self).name
                    &&& final(self).filename == old(self).filename
                },
                Err(e) => {
                    &&& *final(self) == *old(self)
                    &&& (spec_parse_sections(text@) is None && e.deep_view()
                        == ConfErrorView::Parse) || (
                    spec_parse_sections(text@) matches Some(secs) && spec_load_modules(secs)
                        == Err::<Seq<ModuleView>, ConfErrorView>(e.deep_view()))
                },
            },
    {
        let sections = match parse_sections(text) {
            Some(s) => s,
            None => {
                return Err(ConfError::Parse);
            },
        };
        let ghost all = sections.deep_view();
        proof {
            assert(spec_parse_sections(text@) == Some(all));
        }
        let mut built: Vec<Module> = Vec::new();
        let mut i: usize = 0;
        proof {
            assert(built.deep_view() =~= Seq::<ModuleView>::empty());
        }
        while i < sections.len()
            invariant
                i <= sections.len(),
                all == sections.deep_view(),
                all.len() == sections.len(),
                spec_parse_sections(text@) == Some(all),
                spec_load_modules(all) == (match spec_load_from(all, i as nat) {
                    Ok(rest) => Ok::<Seq<ModuleView>, ConfErrorView>(built.deep_view() + rest),
                    Err(e) => Err::<Seq<ModuleView>, ConfErrorView>(e),
                }),
            decreases sections.len() - i,
        {
            let sec = &sections[i];
            proof {
                assert(all[i as int] == sections@[i as int].deep_view());
            }
            match crate::modules::create_module(sec.kind.as_str(), sec) {
                Ok(m) => {
                    let ghost old_dv = built.deep_view();
                    let ghost mv = m.deep_view();
                    built.push(m);
                    proof {
                        assert(spec_module_of_section(all[i as int]) == Ok::<
                            ModuleView,
                            ConfErrorView,
                        >(mv));
                        assert(built.deep_view() =~= old_dv.push(mv));
                        let rest1 = spec_load_from(all, (i + 1) as nat);
                        if rest1 is Ok {
                            let r1 = rest1->Ok_0;
                            assert(spec_load_from(all, i as nat) == Ok::<
                                Seq<ModuleView>,
                                ConfErrorView,
                            >(seq![mv] + r1));
                            assert(old_dv + (seq![mv] + r1) =~= old_dv.push(mv) + r1);
                        } else {
                            assert(spec_load_from(all, i as nat) == rest1);
                        }
                    }
                },
                Err(e) => {
                    proof {
                        assert(spec_module_of_section(all[i as int]) == Err::<
                            ModuleView,
                            ConfErrorView,
                        >(e.deep_view()));
                        assert(spec_load_from(all, i as nat) == Err::<
                            Seq<ModuleView>,
                            ConfErrorView,
                        >(e.deep_view()));
                    }
                    return Err(e);
                },
            }
            i += 1;
        }
        proof {
            assert(built.deep_view() + Seq::<ModuleView>::empty() =~= built.deep_view());
        }
        self.uid = owner_uid;
        self.gid = owner_gid;
        let ghost before = self.modules.deep_view();
        self.modules.append(&mut built);
        proof {
            assert(self.modules.deep_view() =~= before + spec_load_modules(all)->Ok_0);
        }
        Ok(())
    }

    /// The full hypervisor argument vector. A macvtap module must be handed
    /// the raw descriptor number of its opened tap device node in its
    /// position of `tap_fds`; every other position is ignored.
    pub fn build_args(&self, tap_fds: &Vec<Option<u64>>) -> (r: Vec<String>)
        requires
            tap_fds@.len() == self.modules@.len(),
            forall|i: int|
                0 <= i < self.modules@.len() ==> ((#[trigger] self.modules@[i]) is MacVTap
                    ==> tap_fds@[i] is Some),
        ensures
            r.deep_view() == spec_build_args(self.modules.deep_view(), tap_fds@),
    {
        let ghost ms = self.modules.deep_view();
        let ghost fds = tap_fds@;
        let mut r: Vec<String> = Vec::new();
        r.push("-enable-kvm".to_owned());
        proof {
            assert(r.deep_view() =~= seq!["-enable-kvm"@]);
        }
        let mut i: usize = 0;
        while i < self.modules.len()
            invariant
                i <= self.modules.len(),
                ms == self.modules.deep_view(),
                fds == tap_fds@,
                ms.len() == self.modules.len(),
                fds.len() == ms.len(),
                forall|j: int| 0 <= j < ms.len() ==> ((#[trigger] self.modules@[j]) is MacVTap
                    ==> fds[j] is Some),
                spec_build_args(ms, fds) == r.deep_view() + spec_args_tail(ms, fds, i as nat),
            decreases self.modules.len() - i,
        {
            let fd = tap_fds[i];
            let mut margs = self.modules[i].startup_args(fd);
            let ghost rdv = r.deep_view();
            let ghost madv = margs.deep_view();
            r.append(&mut margs);
            proof {
                assert(r.deep_view() =~= rdv + madv);
                assert(rdv + (madv + spec_args_tail(ms, fds, (i + 1) as nat)) =~= (rdv + madv)
                    + spec_args_tail(ms, fds, (i + 1) as nat));
            }
            i += 1;
        }
        proof {
            assert(r.deep_view() + Seq::<Seq<char>>::empty() =~= r.deep_view());
        }
        r
    }
}

/// The machine name a configuration-artifact path contributes to the
/// registry: the base name of a path ending in the recognized extension,
/// without that extension; `None` for any other path.
pub open spec fn spec_conf_name(path: Seq<char>) -> Option<Seq<char>> {
    let base = crate::strutil::spec_basename(path);
    if base.len() > 5 && base.subrange(base.len() - 5, base.len() as int) == ".toml"@ {
        Some(base.subrange(0, base.len() - 5))
    } else {
        None
    }
}

fn conf_name(path: &str) -> (r: Option<String>)
    ensures
        r.deep_view() == spec_conf_name(path@),
{
    proof {
        reveal_strlit(".toml");
    }
    let base = crate::strutil::basename(path);
    let blen = base.as_str().unicode_len();
    if blen > 5 && crate::strutil::str_ends_with(base.as_str(), ".toml") {
        let stem = base.as_str().substring_char(0, blen - 5);
        Some(stem.to_owned())
    } else {
        None
    }
}

/// An empty configuration for each machine name, in path order.
pub open spec fn spec_new_conf(name: Seq<char>, filename: Seq<char>) -> VmConfView {
    VmConfView { name, filename, uid: 0, gid: 0, modules: seq![] }
}

/// The registry contents discovered from the candidate paths from index `i`
/// on: one empty configuration per path with a recognized name.
pub open spec fn spec_registry_from(paths: Seq<Seq<char>>, i: nat) -> Seq<VmConfView>
    decreases paths.len() - i,
{
    if i >= paths.len() {
        seq![]
    } else {
        match spec_conf_name(paths[i as int]) {
            Some(n) => seq![spec_new_conf(n, paths[i as int])] + spec_registry_from(paths, i + 1),
            None => spec_registry_from(paths, i + 1),
        }
    }
}

/// The discovered machines, indexed by name through [`load_vm`].
pub struct VmManager {
    pub vmconfs: Vec<VmConf>,
}

impl VmManager {
    /// Build the registry from the regular files of the configuration
    /// directory (the caller enumerates them): every path with the
    /// recognized extension contributes one machine keyed by its base name;
    /// other paths are silently skipped. Content is not validated here —
    /// parsing is deferred to `load`.
    pub fn new(paths: &Vec<String>) -> (r: VmManager)
        ensures
            r.vmconfs.deep_view() == spec_registry_from(paths.deep_view(), 0),
    {
        let ghost all = paths.deep_view();
        let mut vmconfs: Vec<VmConf> = Vec::new();
        let mut i: usize = 0;
        proof {
            assert(vmconfs.deep_view() =~= Seq::<VmConfView>::empty());
        }
        while i < paths.len()
            invariant
                i <= paths.len(),
                all == paths.deep_view(),
                all.len() == paths.len(),
                spec_registry_from(all, 0) == vmconfs.deep_view() + spec_registry_from(
                    all,
                    i as nat,
                ),
            decreases paths.len() - i,
        {
            let p = &paths[i];
            proof {
                assert(all[i as int] == paths@[i as int]@);
            }
            match conf_name(p.as_str()) {
                Some(name) => {
                    let ghost old_dv = vmconfs.deep_view();
                    let c = VmConf::new(name.as_str(), p.as_str());
                    let ghost cv = c.deep_view();
                    vmconfs.push(c);
                    proof {
                        assert(spec_conf_name(all[i as int]) == Some(name@));
                        assert(cv.modules =~= Seq::<ModuleView>::empty());
                        assert(cv == spec_new_conf(name@, all[i as int]));
                        assert(vmconfs.deep_view() =~= old_dv.push(cv));
                        assert(old_dv + (seq![cv] + spec_registry_from(all, (i + 1) as nat))
                            =~= old_dv.push(cv) + spec_registry_from(all, (i + 1) as nat));
                    }
                },
                None => {
                    proof {
                        assert(spec_conf_name(all[i as int]) is None);
                    }
                },
            }
            i += 1;
        }
        proof {
            assert(vmconfs.deep_view() + Seq::<VmConfView>::empty() =~= vmconfs.deep_view());
        }
        VmManager { vmconfs }
    }
}

/// The first registry entry carrying the machine name, from index `i` on.
pub open spec fn spec_find_vm_from(confs: Seq<VmConfView>, name: Seq<char>, i: nat) -> Option<int>
    decreases confs.len() - i,
{
    if i >= confs.len() {
        None
    } else if confs[i as int].name == name {
        Some(i as int)
    } else {
        spec_find_vm_from(confs, name, i + 1)
    }
}

/// Select the machine named by the first command-line argument: the index
/// of its configuration in the registry, or the error naming what is
/// missing. The caller then reads the artifact and `load`s the
/// configuration at that index.
pub fn load_vm(mgr: &VmManager, args: &Vec<String>) -> (r: Result<usize, ConfError>)
    ensures
        match r {
            Ok(i) => args@.len() >= 2 && i < mgr.vmconfs@.len() && spec_find_vm_from(
                mgr.vmconfs.deep_view(),
                args@[1]@,
                0,
            ) == Some(i as int),
            Err(e) => (args@.len() < 2 && e.deep_view() == ConfErrorView::MissingMachineName) || (
            args@.len() >= 2 && e.deep_view() == (ConfErrorView::UnknownMachine {
                name: args@[1]@,
            }) && spec_find_vm_from(mgr.vmconfs.deep_view(), args@[1]@, 0) is None),
        },
{
    if args.len() < 2 {
        return Err(ConfError::MissingMachineName);
    }
    let target = &args[1];
    let ghost confs = mgr.vmconfs.deep_view();
    let mut i: usize = 0;
    while i < mgr.vmconfs.len()
        invariant
            i <= mgr.vmconfs.len(),
            confs == mgr.vmconfs.deep_view(),
            confs.len() == mgr.vmconfs.len(),
            args@.len() >= 2,
            target == args@[1],
            spec_find_vm_from(confs, target@, 0) == spec_find_vm_from(confs, target@, i as nat),
        decreases mgr.vmconfs.len() - i,
    {
        if str_eq(mgr.vmconfs[i].name.as_str(), target.as_str()) {
            return Ok(i);
        }
        i += 1;
    }
    Err(ConfError::UnknownMachine { name: target.clone() })
}

} // verus!

