//! Finding plug-ins on disk. A plug-in is a directory whose name ends in
//! `.vst3`, the name `.vst3` itself included; the walk does not go into
//! such a directory. Listing directories
//! is left to the caller: the scanner says where to begin and what to make
//! of each listing. A walk begins at an absolute path, so that every
//! plug-in it finds has one.

use vstd::prelude::*;
use vstd::string::{StrSliceExecFns, StringExecFns};
use crate::client::Request;
use crate::plugin::{PluginInfo, PluginInfoView, PluginType};
use crate::session::load::LoaderView;
use crate::session::Loader;
use crate::client::RequestView;
use crate::protocol::HostCommand;

verus! {

/// The name ends in `.vst3`: it is the name of a plug-in. So is the name
/// that is nothing but the ending.
pub open spec fn is_container_name(name: Seq<char>) -> bool {
    name.len() >= 5 && name.subrange(name.len() - 5, name.len() as int) == ".vst3"@
}

/// What a plug-in's name is shortened to: the name without its `.vst3`,
/// or the whole name where nothing stands before the ending. There is none
/// for a name that does not end in `.vst3`.
pub open spec fn container_stem(name: Seq<char>) -> Option<Seq<char>> {
    if !is_container_name(name) {
        None
    } else if name.len() == 5 {
        Some(name)
    } else {
        Some(name.subrange(0, name.len() - 5))
    }
}

/// The path begins at the root of the file system.
pub open spec fn is_absolute(path: Seq<char>) -> bool {
    path.len() > 0 && path[0] == '/'
}

/// The path of an entry `name` of the directory `dir`: the two with one
/// separator between them, which is not doubled where `dir` ends in one;
/// the name alone where `dir` is empty.
pub open spec fn entry_path(dir: Seq<char>, name: Seq<char>) -> Seq<char> {
    if dir.len() == 0 {
        name
    } else if dir.last() == '/' {
        dir + name
    } else {
        dir + "/"@ + name
    }
}

/// Where a walk of `root` begins for a process whose current directory is
/// `cwd`: at `root` itself where that is absolute, and else at `root` as an
/// entry of the current directory.
pub open spec fn walk_root(cwd: Seq<char>, root: Seq<char>) -> Seq<char> {
    if is_absolute(root) {
        root
    } else {
        entry_path(cwd, root)
    }
}

/// The name that a scan gives a plug-in: what its name on disk is
/// shortened to, or "Unknown" where that name is no text.
pub open spec fn stub_name(stem: Seq<char>, lossy: bool) -> Seq<char> {
    if lossy {
        "Unknown"@
    } else {
        stem
    }
}

/// What a scan tells of the plug-in `name` in the directory `dir`: a name,
/// which is its id too, an unknown manufacturer, an effect, and its path.
pub open spec fn stub(dir: Seq<char>, name: Seq<char>, shown: Seq<char>) -> PluginInfoView {
    PluginInfoView {
        name: shown,
        manufacturer: "Unknown"@,
        version: 0,
        plugin_type: PluginType::Effect,
        path: entry_path(dir, name),
        unique_id: shown,
    }
}

/// An entry of a directory.
#[derive(Debug, Clone)]
pub struct DirEntry {
    /// The name of the entry; where the name on disk is no text, what is
    /// left of it as text.
    pub name: String,
    /// Whether the entry is a directory.
    pub is_dir: bool,
    /// Whether the name on disk is no text, and `name` stands in for it,
    /// in the path of the entry too.
    pub lossy: bool,
}

/// An entry of a directory as mathematical values.
pub struct DirEntryView {
    pub name: Seq<char>,
    pub is_dir: bool,
    pub lossy: bool,
}

impl View for DirEntry {
    type V = DirEntryView;

    open spec fn view(&self) -> DirEntryView {
        DirEntryView { name: self.name@, is_dir: self.is_dir, lossy: self.lossy }
    }
}

/// The plug-ins among the entries of `dir`, in their order: the
/// directories with a plug-in's name.
pub open spec fn plugins_among(dir: Seq<char>, entries: Seq<DirEntry>) -> Seq<PluginInfoView>
    decreases entries.len(),
{
    if entries.len() == 0 {
        Seq::empty()
    } else {
        let before = plugins_among(dir, entries.drop_last());
        let entry = entries.last()@;
        match container_stem(entry.name) {
            Some(stem) if entry.is_dir => before.push(
                stub(dir, entry.name, stub_name(stem, entry.lossy)),
            ),
            _ => before,
        }
    }
}

/// The directories to walk next among the entries of `dir`, in their
/// order: the directories that are no plug-ins.
pub open spec fn subdirs_among(dir: Seq<char>, entries: Seq<DirEntry>) -> Seq<Seq<char>>
    decreases entries.len(),
{
    if entries.len() == 0 {
        Seq::empty()
    } else {
        let before = subdirs_among(dir, entries.drop_last());
        let entry = entries.last()@;
        if entry.is_dir && !is_container_name(entry.name) {
            before.push(entry_path(dir, entry.name))
        } else {
            before
        }
    }
}

/// The texts of the strings.
pub open spec fn texts(strings: Seq<String>) -> Seq<Seq<char>> {
    Seq::new(strings.len(), |i: int| strings[i]@)
}

/// The descriptions as mathematical values.
pub open spec fn info_views(infos: Seq<PluginInfo>) -> Seq<PluginInfoView> {
    Seq::new(infos.len(), |i: int| infos[i]@)
}

/// What a plug-in's name is shortened to, where `name` is a plug-in's
/// name: the name without its `.vst3`, or the whole name where nothing
/// stands before the ending.
pub fn plugin_stem(name: &str) -> (r: Option<String>)
    ensures
        r is Some <==> is_container_name(name@),
        r matches Some(stem) ==> Some(stem@) == container_stem(name@),
{
    proof {
        reveal_strlit(".vst3");
    }
    let len: usize = name.unicode_len();
    if len < 5 {
        return None;
    }
    let at: usize = len - 5;
    if name.get_char(at) == '.' && name.get_char(at + 1) == 'v' && name.get_char(at + 2) == 's'
        && name.get_char(at + 3) == 't' && name.get_char(at + 4) == '3' {
        assert(name@.subrange(name@.len() - 5, name@.len() as int) =~= ".vst3"@);
        if at == 0 {
            Some(String::from_str(name))
        } else {
            Some(String::from_str(name.substring_char(0, at)))
        }
    } else {
        assert(name@.subrange(name@.len() - 5, name@.len() as int) != ".vst3"@) by {
            let tail = name@.subrange(name@.len() - 5, name@.len() as int);
            assert(tail[0] == name@[at as int]);
            assert(tail[1] == name@[at + 1]);
            assert(tail[2] == name@[at + 2]);
            assert(tail[3] == name@[at + 3]);
            assert(tail[4] == name@[at + 4]);
        }
        None
    }
}

/// What a listing of one entry yields: a directory with a plug-in's name
/// is reported and not walked; any other directory is walked and not
/// reported; an entry that is no directory is neither.
pub proof fn lemma_listing_of_one(dir: Seq<char>, entry: DirEntry)
    ensures
        entry.is_dir && is_container_name(entry.name@) ==> plugins_among(dir, seq![entry])
            == seq![
            stub(dir, entry.name@, stub_name(container_stem(entry.name@).unwrap(), entry.lossy)),
        ] && subdirs_among(dir, seq![entry]) == Seq::<Seq<char>>::empty(),
        entry.is_dir && !is_container_name(entry.name@) ==> plugins_among(dir, seq![entry])
            == Seq::<PluginInfoView>::empty() && subdirs_among(dir, seq![entry]) == seq![
            entry_path(dir, entry.name@),
        ],
        !entry.is_dir ==> plugins_among(dir, seq![entry]) == Seq::<PluginInfoView>::empty()
            && subdirs_among(dir, seq![entry]) == Seq::<Seq<char>>::empty(),
{
    let one = seq![entry];
    assert(one.drop_last() =~= Seq::empty());
    assert(one.last() == entry);
    assert(plugins_among(dir, one.drop_last()) =~= Seq::empty());
    assert(subdirs_among(dir, one.drop_last()) =~= Seq::empty());
    if entry.is_dir && is_container_name(entry.name@) {
        assert(plugins_among(dir, one) =~= seq![
            stub(dir, entry.name@, stub_name(container_stem(entry.name@).unwrap(), entry.lossy)),
        ]);
        assert(subdirs_among(dir, one) =~= Seq::<Seq<char>>::empty());
    } else if entry.is_dir {
        assert(plugins_among(dir, one) =~= Seq::<PluginInfoView>::empty());
        assert(subdirs_among(dir, one) =~= seq![entry_path(dir, entry.name@)]);
    } else {
        assert(plugins_among(dir, one) =~= Seq::<PluginInfoView>::empty());
        assert(subdirs_among(dir, one) =~= Seq::<Seq<char>>::empty());
    }
}

/// A listing yields what its parts yield, in their order: every entry is
/// looked at once, and by itself.
pub proof fn lemma_listing_concat(dir: Seq<char>, first: Seq<DirEntry>, rest: Seq<DirEntry>)
    ensures
        plugins_among(dir, first + rest) == plugins_among(dir, first) + plugins_among(dir, rest),
        subdirs_among(dir, first + rest) == subdirs_among(dir, first) + subdirs_among(dir, rest),
    decreases rest.len(),
{
    if rest.len() == 0 {
        assert(first + rest =~= first);
        assert(plugins_among(dir, first) + plugins_among(dir, rest) =~= plugins_among(
            dir,
            first,
        ));
        assert(subdirs_among(dir, first) + subdirs_among(dir, rest) =~= subdirs_among(
            dir,
            first,
        ));
    } else {
        let whole = first + rest;
        assert(whole.drop_last() =~= first + rest.drop_last());
        assert(whole.last() == rest.last());
        lemma_listing_concat(dir, first, rest.drop_last());
        assert(plugins_among(dir, whole) =~= plugins_among(dir, first) + plugins_among(
            dir,
            rest,
        ));
        assert(subdirs_among(dir, whole) =~= subdirs_among(dir, first) + subdirs_among(
            dir,
            rest,
        ));
    }
}

/// The path of an entry of a directory.
pub fn join(dir: &str, name: &str) -> (path: String)
    ensures
        path@ == entry_path(dir@, name@),
{
    let len: usize = dir.unicode_len();
    if len == 0 {
        String::from_str(name)
    } else if dir.get_char(len - 1) == '/' {
        String::from_str(dir).concat(name)
    } else {
        String::from_str(dir).concat("/").concat(name)
    }
}

/// The absolute path at which a walk of `root` begins, for a process whose
/// current directory is `cwd`.
pub fn absolute_root(cwd: &str, root: &str) -> (path: String)
    ensures
        path@ == walk_root(cwd@, root@),
        is_absolute(cwd@) ==> is_absolute(path@),
{
    proof {
        if is_absolute(cwd@) {
            lemma_entry_absolute(cwd@, root@);
        }
    }
    if !root.is_empty() && root.get_char(0) == '/' {
        String::from_str(root)
    } else {
        join(cwd, root)
    }
}

/// An entry of a directory with an absolute path has an absolute path.
pub proof fn lemma_entry_absolute(dir: Seq<char>, name: Seq<char>)
    requires
        is_absolute(dir),
    ensures
        is_absolute(entry_path(dir, name)),
{
}

/// Under a directory with an absolute path, every plug-in that a listing
/// yields has an absolute path, and so has every directory that is still to
/// be listed.
pub proof fn lemma_hits_absolute(dir: Seq<char>, entries: Seq<DirEntry>)
    requires
        is_absolute(dir),
    ensures
        forall|i: int|
            0 <= i < plugins_among(dir, entries).len() ==> is_absolute(
                #[trigger] plugins_among(dir, entries)[i].path,
            ),
        forall|i: int|
            0 <= i < subdirs_among(dir, entries).len() ==> is_absolute(
                #[trigger] subdirs_among(dir, entries)[i],
            ),
    decreases entries.len(),
{
    if entries.len() > 0 {
        let before = entries.drop_last();
        lemma_hits_absolute(dir, before);
        lemma_entry_absolute(dir, entries.last()@.name);
        assert forall|i: int| 0 <= i < subdirs_among(dir, entries).len() implies is_absolute(
            #[trigger] subdirs_among(dir, entries)[i],
        ) by {
            if i < subdirs_among(dir, before).len() {
                assert(subdirs_among(dir, entries)[i] == subdirs_among(dir, before)[i]);
            }
        }
        assert forall|i: int| 0 <= i < plugins_among(dir, entries).len() implies is_absolute(
            #[trigger] plugins_among(dir, entries)[i].path,
        ) by {
            if i < plugins_among(dir, before).len() {
                assert(plugins_among(dir, entries)[i] == plugins_among(dir, before)[i]);
            }
        }
    }
}

/// Takes the listing of one directory into a scan: each directory with a
/// plug-in's name is added to what was found, and each other directory to
/// those that are still to be listed. Entries that are no directories are
/// passed over. Under a directory with an absolute path, all that is added
/// has an absolute path.
pub fn collect(
    dir: &str,
    entries: &[DirEntry],
    found: &mut Vec<PluginInfo>,
    pending: &mut Vec<String>,
)
    ensures
        info_views(final(found)@) == info_views(old(found)@) + plugins_among(dir@, entries@),
        texts(final(pending)@) == texts(old(pending)@) + subdirs_among(dir@, entries@),
{
    let mut i: usize = 0;
    assert(entries@.take(0) =~= Seq::empty());
    assert(info_views(found@) =~= info_views(old(found)@) + plugins_among(dir@, entries@.take(0)));
    assert(texts(pending@) =~= texts(old(pending)@) + subdirs_among(dir@, entries@.take(0)));
    while i < entries.len()
        invariant
            i <= entries@.len(),
            info_views(found@) == info_views(old(found)@) + plugins_among(
                dir@,
                entries@.take(i as int),
            ),
            texts(pending@) == texts(old(pending)@) + subdirs_among(dir@, entries@.take(i as int)),
        decreases entries@.len() - i,
    {
        let entry: &DirEntry = &entries[i];
        let ghost found_before = info_views(found@);
        let ghost pending_before = texts(pending@);
        proof {
            assert(entries@.take(i + 1).drop_last() =~= entries@.take(i as int));
            assert(entries@.take(i + 1).last() == entries@[i as int]);
        }
        if entry.is_dir {
            match plugin_stem(entry.name.as_str()) {
                Some(stem) => {
                    let shown: String = if entry.lossy {
                        String::from_str("Unknown")
                    } else {
                        stem
                    };
                    let info = PluginInfo {
                        name: shown.clone(),
                        manufacturer: String::from_str("Unknown"),
                        version: 0,
                        plugin_type: PluginType::Effect,
                        path: join(dir, entry.name.as_str()),
                        unique_id: shown,
                    };
                    found.push(info);
                    assert(info_views(found@) =~= found_before.push(info@));
                },
                None => {
                    let path: String = join(dir, entry.name.as_str());
                    pending.push(path);
                    assert(texts(pending@) =~= pending_before.push(path@));
                },
            }
        }
        i += 1;
        assert(info_views(found@) =~= info_views(old(found)@) + plugins_among(
            dir@,
            entries@.take(i as int),
        ));
        assert(texts(pending@) =~= texts(old(pending)@) + subdirs_among(
            dir@,
            entries@.take(i as int),
        ));
    }
    assert(entries@.take(i as int) =~= entries@);
}

/// What starts the worker: a program, its arguments, and a variable to set
/// in its environment, if any.
#[derive(Debug, Clone)]
pub struct Launch {
    pub program: String,
    pub args: Vec<String>,
    pub env: Option<(String, String)>,
}

/// Finds plug-ins, and begins to load them into workers.
#[derive(Debug, Clone)]
pub struct WineVst3Scanner {
    host_exe: String,
    wine_prefix: Option<String>,
}

/// A scanner as mathematical values.
pub struct ScannerView {
    pub host_exe: Seq<char>,
    pub wine_prefix: Option<Seq<char>>,
}

impl ScannerView {
    /// The prefix of the compatibility runtime for a user whose home
    /// directory is `home`: the one that was set, or the runtime's own place
    /// in the home directory.
    pub open spec fn prefix(self, home: Seq<char>) -> Seq<char> {
        match self.wine_prefix {
            Some(prefix) => prefix,
            None => home + "/.wine"@,
        }
    }

    /// The two directories that a scan begins with.
    pub open spec fn roots(self, home: Seq<char>) -> Seq<Seq<char>> {
        seq![
            self.prefix(home) + "/drive_c/Program Files/Common Files/VST3"@,
            self.prefix(home) + "/drive_c/Program Files (x86)/Common Files/VST3"@,
        ]
    }
}

impl View for WineVst3Scanner {
    type V = ScannerView;

    closed spec fn view(&self) -> ScannerView {
        ScannerView {
            host_exe: self.host_exe@,
            wine_prefix: match self.wine_prefix {
                Some(prefix) => Some(prefix@),
                None => None,
            },
        }
    }
}

impl WineVst3Scanner {
    /// A scanner that starts the worker found at `host_exe`, in the
    /// runtime's default prefix.
    pub fn new(host_exe: &str) -> (scanner: WineVst3Scanner)
        ensures
            scanner@ == (ScannerView { host_exe: host_exe@, wine_prefix: None }),
    {
        WineVst3Scanner { host_exe: String::from_str(host_exe), wine_prefix: None }
    }

    /// The scanner with `prefix` as the prefix of the runtime.
    pub fn with_wine_prefix(self, prefix: &str) -> (scanner: WineVst3Scanner)
        ensures
            scanner@ == (ScannerView { host_exe: self@.host_exe, wine_prefix: Some(prefix@) }),
    {
        WineVst3Scanner { host_exe: self.host_exe, wine_prefix: Some(String::from_str(prefix)) }
    }

    /// The path of the worker.
    pub fn host_exe(&self) -> (path: &str)
        ensures
            path@ == self@.host_exe,
    {
        self.host_exe.as_str()
    }

    /// The prefix of the runtime, where one was set.
    pub fn wine_prefix(&self) -> (prefix: Option<&str>)
        ensures
            prefix is Some <==> self@.wine_prefix is Some,
            prefix matches Some(p) ==> Some(p@) == self@.wine_prefix,
    {
        match &self.wine_prefix {
            Some(prefix) => Some(prefix.as_str()),
            None => None,
        }
    }

    /// What starts the worker: the runtime with the worker as its one
    /// argument, and the prefix, where one was set, as `WINEPREFIX` in its
    /// environment.
    pub fn launch(&self) -> (launch: Launch)
        ensures
            launch.program@ == "wine"@,
            texts(launch.args@) == seq![self@.host_exe],
            launch.env is Some <==> self@.wine_prefix is Some,
            launch.env matches Some(pair) ==> pair.0@ == "WINEPREFIX"@ && Some(pair.1@)
                == self@.wine_prefix,
    {
        let mut args: Vec<String> = Vec::new();
        args.push(self.host_exe.clone());
        assert(texts(args@) =~= seq![self@.host_exe]);
        let env: Option<(String, String)> = match &self.wine_prefix {
            Some(prefix) => Some((String::from_str("WINEPREFIX"), prefix.clone())),
            None => None,
        };
        Launch { program: String::from_str("wine"), args, env }
    }

    /// The two directories that a scan begins with, for a user whose home
    /// directory is `home`.
    pub fn scan_roots(&self, home: &str) -> (roots: Vec<String>)
        ensures
            texts(roots@) == self@.roots(home@),
    {
        let prefix: String = match &self.wine_prefix {
            Some(prefix) => prefix.clone(),
            None => String::from_str(home).concat("/.wine"),
        };
        let mut roots: Vec<String> = Vec::new();
        roots.push(prefix.clone().concat("/drive_c/Program Files/Common Files/VST3"));
        roots.push(prefix.concat("/drive_c/Program Files (x86)/Common Files/VST3"));
        assert(texts(roots@) =~= self@.roots(home@));
        roots
    }

    /// Begins to load the plug-in that `info` describes: gives the loader,
    /// and the first request to send once the worker is connected.
    pub fn load(&self, info: &PluginInfo) -> (r: (Loader, Request))
        ensures
            r.0@ == LoaderView::fresh(info@.path),
            r.1@ == (RequestView { command: HostCommand::Ping, payload: Seq::empty() }),
    {
        Loader::start(info.path.as_str())
    }
}

} // verus!
