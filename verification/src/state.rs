//! The daemon's root state and the operations the control loop performs on
//! it: gallery registry, current-gallery selection, snapshot save and
//! restore, the update trigger and the request dispatcher.

use vstd::prelude::*;
use crate::command::CommandTemplate;
use crate::command::CommandLine;
use crate::command::spec_split_spaces;
use crate::command::spec_parse_args;
use crate::command::spec_build_args;
use crate::lifecycle::UpdateSlots;
use crate::lifecycle::UpdateAction;
use crate::lifecycle::spec_request;
use crate::lifecycle::spec_exit;
use crate::recency::RecencyBuffer;
use crate::recency::ring_push;
use crate::recency::spec_retained;
use crate::recency::lemma_ring_push_retained;
use crate::selector::select_random_image;
use crate::timer::PausableInterval;
use crate::message_api::Request;
use crate::message_api::Response;
use crate::listeners::ListenerConfiguration;

verus! {

/// A named set of folders treated as one pool of candidate images.
pub struct Gallery {
    pub name: String,
    /// Folder paths, their order irrelevant.
    pub sources: Vec<String>,
}

/// The ghost shape of a gallery.
pub struct GalleryView {
    pub name: Seq<char>,
    pub sources: Seq<Seq<char>>,
}

impl DeepView for Gallery {
    type V = GalleryView;

    open spec fn deep_view(&self) -> GalleryView {
        GalleryView { name: self.name@, sources: self.sources.deep_view() }
    }
}

/// No two registry entries share a name.
pub open spec fn unique_names(gs: Seq<GalleryView>) -> bool {
    forall|i: int, j: int| 0 <= i < j < gs.len() ==> gs[i].name != gs[j].name
}

/// Some registry entry bears this name.
pub open spec fn has_gallery(gs: Seq<GalleryView>, name: Seq<char>) -> bool {
    exists|i: int| 0 <= i < gs.len() && gs[i].name == name
}

/// The position of the entry bearing this name.
pub open spec fn registry_index(gs: Seq<GalleryView>, name: Seq<char>) -> int {
    choose|i: int| 0 <= i < gs.len() && gs[i].name == name
}

/// One gallery added to the registry: a new name is appended, a known name
/// has its entry replaced.
pub open spec fn registry_insert(gs: Seq<GalleryView>, g: GalleryView) -> Seq<GalleryView> {
    if has_gallery(gs, g.name) {
        gs.update(registry_index(gs, g.name), g)
    } else {
        gs.push(g)
    }
}

/// The registry a gallery list loads into, inserted front to back: of
/// entries sharing a name the last one wins.
pub open spec fn spec_registry(gs: Seq<GalleryView>) -> Seq<GalleryView>
    decreases gs.len(),
{
    if gs.len() == 0 {
        Seq::empty()
    } else {
        registry_insert(spec_registry(gs.drop_last()), gs.last())
    }
}

/// Inserting keeps names unique and keeps every name that was present.
proof fn lemma_registry_insert(gs: Seq<GalleryView>, g: GalleryView)
    requires
        unique_names(gs),
    ensures
        unique_names(registry_insert(gs, g)),
        forall|n: Seq<char>| has_gallery(gs, n) ==> #[trigger] has_gallery(registry_insert(gs, g), n),
        has_gallery(registry_insert(gs, g), g.name),
{
    let out = registry_insert(gs, g);
    if has_gallery(gs, g.name) {
        let i = registry_index(gs, g.name);
        assert(0 <= i < gs.len() && gs[i].name == g.name);
        assert forall|n: Seq<char>| has_gallery(gs, n) implies #[trigger] has_gallery(out, n) by {
            let w = choose|k: int| 0 <= k < gs.len() && gs[k].name == n;
            assert(out[w].name == n);
        }
        assert(out[i].name == g.name);
    } else {
        assert forall|n: Seq<char>| has_gallery(gs, n) implies #[trigger] has_gallery(out, n) by {
            let w = choose|k: int| 0 <= k < gs.len() && gs[k].name == n;
            assert(out[w].name == n);
        }
        assert(out[gs.len() as int].name == g.name);
    }
}

/// The index of the first entry bearing `name`, if any.
fn find_gallery(galleries: &Vec<Gallery>, name: &String) -> (r: Option<usize>)
    ensures
        r matches Some(i) ==> i < galleries@.len() && galleries.deep_view()[i as int].name
            == name@,
        r is None ==> !has_gallery(galleries.deep_view(), name@),
{
    let mut i: usize = 0;
    while i < galleries.len()
        invariant
            i <= galleries@.len(),
            forall|k: int| 0 <= k < i ==> #[trigger] galleries.deep_view()[k].name != name@,
        decreases galleries@.len() - i,
    {
        assert(galleries.deep_view()[i as int] == galleries@[i as int].deep_view());
        if galleries[i].name.eq(name) {
            return Some(i);
        }
        i += 1;
    }
    None
}

/// Add one gallery to a registry, replacing the entry of the same name if
/// one exists.
fn insert_gallery(galleries: &mut Vec<Gallery>, gallery: Gallery)
    requires
        unique_names(old(galleries).deep_view()),
    ensures
        final(galleries).deep_view() == registry_insert(
            old(galleries).deep_view(),
            gallery.deep_view(),
        ),
        unique_names(final(galleries).deep_view()),
{
    let ghost pre = galleries.deep_view();
    let ghost gv = gallery.deep_view();
    proof {
        lemma_registry_insert(pre, gv);
    }
    match find_gallery(galleries, &gallery.name) {
        Some(i) => {
            proof {
                let w = registry_index(pre, gv.name);
                assert(0 <= w < pre.len() && pre[w].name == gv.name);
                assert(w == i as int);
            }
            galleries.remove(i);
            galleries.insert(i, gallery);
            proof {
                assert forall|k: int| 0 <= k < galleries.deep_view().len() implies
                    galleries.deep_view()[k] == registry_insert(pre, gv)[k] by {
                    assert(galleries.deep_view()[k] == galleries@[k].deep_view());
                    if k != i as int {
                        assert(galleries@[k] == old(galleries)@[k]);
                        assert(pre[k] == old(galleries)@[k].deep_view());
                    }
                }
                assert(galleries.deep_view() =~= registry_insert(pre, gv));
            }
        },
        None => {
            galleries.push(gallery);
            proof {
                assert forall|k: int| 0 <= k < galleries.deep_view().len() implies
                    galleries.deep_view()[k] == registry_insert(pre, gv)[k] by {
                    assert(galleries.deep_view()[k] == galleries@[k].deep_view());
                    if k < pre.len() {
                        assert(pre[k] == old(galleries)@[k].deep_view());
                    }
                }
                assert(galleries.deep_view() =~= registry_insert(pre, gv));
            }
        },
    }
}

/// The view of an optional name.
pub open spec fn opt_name(o: Option<String>) -> Option<Seq<char>> {
    match o {
        Some(n) => Some(n@),
        None => None,
    }
}

/// What a state operation could not do.
#[derive(Clone, Copy, Debug, PartialEq, Eq, Structural)]
pub enum StateError {
    /// The command line holds no program token.
    MissingCommand,
    /// The named gallery is not in the registry.
    UnknownGallery,
}

/// The part of the state that survives a restart.
pub struct PersistentState {
    /// Name of the currently selected gallery, if there is one.
    pub current_gallery: Option<String>,
    /// The most recently selected paths, oldest first.
    pub recently_selected: RecencyBuffer,
    /// Whether the daemon is paused rather than cycling through images.
    pub is_paused: bool,
}

/// The persistent subset as plain values, handed to and from storage.
pub struct Snapshot {
    pub current_gallery: Option<String>,
    /// The remembered paths, oldest first.
    pub recently_selected: Vec<String>,
    pub is_paused: bool,
}

/// Copy a path list.
fn clone_paths(v: &Vec<String>) -> (r: Vec<String>)
    ensures
        r.deep_view() == v.deep_view(),
{
    let mut r: Vec<String> = Vec::new();
    let mut i: usize = 0;
    while i < v.len()
        invariant
            i <= v@.len(),
            r@.len() == i,
            forall|k: int| 0 <= k < i ==> #[trigger] r@[k]@ == v@[k]@,
        decreases v@.len() - i,
    {
        r.push(v[i].clone());
        i += 1;
    }
    proof {
        assert forall|k: int| 0 <= k < r.deep_view().len() implies r.deep_view()[k]
            == v.deep_view()[k] by {
            assert(r.deep_view()[k] == r@[k]@);
            assert(v.deep_view()[k] == v@[k]@);
        }
        assert(r.deep_view() =~= v.deep_view());
    }
    r
}

/// The outcome of one update trigger.
#[derive(Debug)]
pub enum UpdateOutcome {
    /// There was no candidate file; nothing changed.
    NoCandidates,
    /// `path` was selected and its command occupies the free running slot;
    /// the caller must launch it.
    Launched { path: String },
    /// `path` was selected while a process was running: its command is now
    /// the sole pending one. `discarded` reports that an older pending
    /// command was thrown away for it.
    Queued { path: String, discarded: bool },
}

/// The dispatcher's answer: the response to send back, and what the caller
/// must do besides.
pub struct DispatchResult {
    pub response: Response,
    /// Trigger an update now: enumerate the current gallery's files and
    /// call `update`.
    pub needs_update: bool,
    /// Write a snapshot of the persistent subset to storage.
    pub needs_persist: bool,
}

/// What dispatching `msg` at instant `now` does: how `post` relates to
/// `pre`, and which response and follow-up work come back. An undecodable
/// message or an unknown gallery name changes nothing; the other requests
/// touch exactly the timer, the current gallery or the pause flag.
pub open spec fn spec_dispatched(
    pre: ApplicationState,
    post: ApplicationState,
    msg: Result<Request, String>,
    now: u64,
    r: DispatchResult,
) -> bool {
    match msg {
        Err(m) => {
            &&& post == pre
            &&& (r.response matches Response::BadRequest { message } && message@ == m@)
            &&& !r.needs_update
            &&& !r.needs_persist
        },
        Ok(Request::NextImage) => {
            &&& same_static_config(pre, post)
            &&& post.update_slots == pre.update_slots
            &&& post.persistent == pre.persistent
            &&& post.update_interval == (PausableInterval {
                already_expired: None,
                last_interaction: now,
                deadline: (now + pre.update_interval.interval) as u64,
                ..pre.update_interval
            })
            &&& r.response is NewImage
            &&& r.needs_update
            &&& !r.needs_persist
        },
        Ok(Request::UpdateInterval { millis }) => {
            &&& same_static_config(pre, post)
            &&& post.update_slots == pre.update_slots
            &&& post.persistent == pre.persistent
            &&& post.update_interval == PausableInterval::spec_new(millis, now).spec_pause(
                pre.update_interval.is_paused,
                now,
            )
            &&& r.response is NewImage
            &&& !r.needs_update
            &&& !r.needs_persist
        },
        Ok(Request::SelectGallery { name, refresh }) => {
            if !has_gallery(pre.galleries.deep_view(), name@) {
                &&& post == pre
                &&& r.response is InvalidGallery
                &&& !r.needs_update
                &&& !r.needs_persist
            } else {
                &&& same_static_config(pre, post)
                &&& post.update_interval == pre.update_interval
                &&& post.update_slots == pre.update_slots
                &&& opt_name(post.persistent.current_gallery) == Some(name@)
                &&& post.persistent.recently_selected == pre.persistent.recently_selected
                &&& post.persistent.is_paused == pre.persistent.is_paused
                &&& r.response is NewImage
                &&& r.needs_update == refresh
                &&& r.needs_persist
            }
        },
        Ok(Request::Pause) => spec_pause_dispatched(pre, post, true, now, r),
        Ok(Request::Resume) => spec_pause_dispatched(pre, post, false, now, r),
    }
}

/// What `Pause` or `Resume` does: only the timer's pause state and the
/// persisted flag move, and a snapshot write is owed.
pub open spec fn spec_pause_dispatched(
    pre: ApplicationState,
    post: ApplicationState,
    paused: bool,
    now: u64,
    r: DispatchResult,
) -> bool {
    &&& same_static_config(pre, post)
    &&& post.update_slots == pre.update_slots
    &&& post.persistent.current_gallery == pre.persistent.current_gallery
    &&& post.persistent.recently_selected == pre.persistent.recently_selected
    &&& post.persistent.is_paused == paused
    &&& post.update_interval == pre.update_interval.spec_pause(paused, now)
    &&& r.response is Success
    &&& !r.needs_update
    &&& r.needs_persist
}

/// The daemon's single mutable root, owned by the control loop.
pub struct ApplicationState {
    /// The gallery registry, its names unique.
    pub galleries: Vec<Gallery>,
    /// The pausable periodic timer driving updates.
    pub update_interval: PausableInterval,
    /// The template the display command is built from.
    pub display_command: CommandTemplate,
    /// The running and pending update slots.
    pub update_slots: UpdateSlots,
    /// How many extra draws may reject a recent repeat.
    pub number_retries: u32,
    /// File name the snapshot is stored under, if any.
    pub storage_file: Option<String>,
    /// The part of the state that survives a restart.
    pub persistent: PersistentState,
}

/// Both states carry the same registry, command template, retry budget and
/// storage name.
pub open spec fn same_static_config(a: ApplicationState, b: ApplicationState) -> bool {
    &&& a.galleries == b.galleries
    &&& a.display_command == b.display_command
    &&& a.number_retries == b.number_retries
    &&& a.storage_file == b.storage_file
}

/// The buffer and slot effect of one selection of `path`: the path is
/// remembered, and its command — the template instantiated for it — went
/// through the single-flight slots.
pub open spec fn spec_updated_with(
    pre: ApplicationState,
    post: ApplicationState,
    path: Seq<char>,
) -> bool {
    &&& post.persistent.recently_selected.contents() == ring_push(
        pre.persistent.recently_selected.contents(),
        pre.persistent.recently_selected.cap(),
        path,
    )
    &&& post.persistent.recently_selected.cap() == pre.persistent.recently_selected.cap()
    &&& exists|cmd: CommandLine|
        {
            &&& post.update_slots == #[trigger] spec_request(pre.update_slots, cmd)
            &&& cmd.program@ == pre.display_command.program@
            &&& cmd.args.deep_view() == spec_build_args(pre.display_command.parts.deep_view(), path)
        }
}

impl ApplicationState {
    /// The state's invariant: the timer, buffer and slots are well formed,
    /// gallery names are unique, the persisted pause flag agrees with the
    /// timer, and the current gallery, when set, is in the registry.
    pub open spec fn wf(&self) -> bool {
        &&& self.update_interval.wf()
        &&& self.persistent.recently_selected.wf()
        &&& self.update_slots.wf()
        &&& unique_names(self.galleries.deep_view())
        &&& self.persistent.is_paused == self.update_interval.is_paused
        &&& (self.persistent.current_gallery matches Some(n) ==> has_gallery(
            self.galleries.deep_view(),
            n@,
        ))
    }

    /// A fresh state: no galleries, no gallery selected, default retry
    /// budget and buffer capacity, the given command and interval. Without
    /// a command token there is nothing to display with, and that is
    /// refused.
    pub fn new(update_command: &Vec<String>, update_interval: u64, now: u64) -> (r: Result<
        ApplicationState,
        StateError,
    >)
        ensures
            r is Err <==> update_command@.len() == 0,
            r is Err ==> r == Err::<ApplicationState, StateError>(StateError::MissingCommand),
            r matches Ok(s) ==> {
                &&& s.wf()
                &&& s.galleries@.len() == 0
                &&& s.update_interval == PausableInterval::spec_new(update_interval, now)
                &&& s.display_command.program@ == update_command.deep_view()[0]
                &&& s.display_command.parts.deep_view() == spec_parse_args(
                    update_command.deep_view().drop_first(),
                )
                &&& s.update_slots.running is None
                &&& s.update_slots.pending is None
                &&& s.number_retries == 3
                &&& opt_name(s.storage_file) == Some("gallerica.json"@)
                &&& s.persistent.current_gallery is None
                &&& s.persistent.recently_selected.contents() == Seq::<Seq<char>>::empty()
                &&& s.persistent.recently_selected.cap() == 3
                &&& s.persistent.is_paused == false
            },
    {
        let display_command = match CommandTemplate::from_tokens(update_command) {
            Some(t) => t,
            None => {
                return Err(StateError::MissingCommand);
            },
        };
        Ok(
            ApplicationState {
                galleries: Vec::new(),
                update_interval: PausableInterval::new(update_interval, now),
                display_command,
                update_slots: UpdateSlots::new(),
                number_retries: 3,
                storage_file: Some("gallerica.json".to_owned()),
                persistent: PersistentState {
                    current_gallery: None,
                    recently_selected: RecencyBuffer::with_capacity(3),
                    is_paused: false,
                },
            },
        )
    }

    /// Put one gallery into the registry, replacing the entry of the same
    /// name if one exists.
    pub fn add_gallery(&mut self, gallery: Gallery)
        requires
            old(self).wf(),
        ensures
            final(self).wf(),
            final(self).galleries.deep_view() == registry_insert(
                old(self).galleries.deep_view(),
                gallery.deep_view(),
            ),
            final(self).update_interval == old(self).update_interval,
            final(self).display_command == old(self).display_command,
            final(self).update_slots == old(self).update_slots,
            final(self).number_retries == old(self).number_retries,
            final(self).storage_file == old(self).storage_file,
            final(self).persistent == old(self).persistent,
    {
        proof {
            lemma_registry_insert(self.galleries.deep_view(), gallery.deep_view());
        }
        insert_gallery(&mut self.galleries, gallery);
    }

    /// Switch the current gallery. An unknown name changes nothing and is
    /// refused.
    pub fn change_gallery(&mut self, name: &String) -> (r: Result<(), StateError>)
        requires
            old(self).wf(),
        ensures
            final(self).wf(),
            r is Ok <==> has_gallery(old(self).galleries.deep_view(), name@),
            r is Err ==> *final(self) == *old(self) && r == Err::<(), StateError>(
                StateError::UnknownGallery,
            ),
            r is Ok ==> {
                &&& opt_name(final(self).persistent.current_gallery) == Some(name@)
                &&& same_static_config(*old(self), *final(self))
                &&& final(self).update_interval == old(self).update_interval
                &&& final(self).update_slots == old(self).update_slots
                &&& final(self).persistent.recently_selected == old(
                    self,
                ).persistent.recently_selected
                &&& final(self).persistent.is_paused == old(self).persistent.is_paused
            },
    {
        if find_gallery(&self.galleries, name).is_none() {
            return Err(StateError::UnknownGallery);
        }
        self.persistent.current_gallery = Some(name.clone());
        Ok(())
    }

    /// The folder paths of the current gallery, if one is selected.
    pub fn current_sources(&self) -> (r: Option<Vec<String>>)
        requires
            self.wf(),
        ensures
            r is Some <==> self.persistent.current_gallery is Some,
            r matches Some(v) ==> exists|i: int|
                {
                    &&& 0 <= i < self.galleries.deep_view().len()
                    &&& #[trigger] self.galleries.deep_view()[i].name == opt_name(
                        self.persistent.current_gallery,
                    ).unwrap()
                    &&& v.deep_view() == self.galleries.deep_view()[i].sources
                },
    {
        let name = match &self.persistent.current_gallery {
            None => {
                return None;
            },
            Some(name) => name,
        };
        match find_gallery(&self.galleries, name) {
            Some(i) => {
                let v = clone_paths(&self.galleries[i].sources);
                proof {
                    assert(self.galleries.deep_view()[i as int] == self.galleries@[
                        i as int].deep_view());
                }
                Some(v)
            },
            None => {
                proof {
                    assert(false);
                }
                None
            },
        }
    }

    /// The persistent subset as plain values, ready for storage.
    pub fn snapshot(&self) -> (r: Snapshot)
        ensures
            opt_name(r.current_gallery) == opt_name(self.persistent.current_gallery),
            r.recently_selected.deep_view() == self.persistent.recently_selected.contents(),
            r.is_paused == self.persistent.is_paused,
    {
        let current_gallery = match &self.persistent.current_gallery {
            Some(n) => Some(n.clone()),
            None => None,
        };
        Snapshot {
            current_gallery,
            recently_selected: self.persistent.recently_selected.to_vec(),
            is_paused: self.persistent.is_paused,
        }
    }

    /// Restore the persistent subset from a loaded snapshot. A snapshot
    /// naming a gallery that is not in the registry is rejected whole and
    /// changes nothing. The remembered paths are replayed, oldest first,
    /// into a buffer of the currently configured capacity, so a capacity
    /// change keeps the most recent entries that fit.
    pub fn update_persistent_state(&mut self, new_state: Snapshot, now: u64) -> (r: Result<
        (),
        StateError,
    >)
        requires
            old(self).wf(),
            now >= old(self).update_interval.last_interaction,
        ensures
            final(self).wf(),
            r is Ok <==> (new_state.current_gallery is None || has_gallery(
                old(self).galleries.deep_view(),
                opt_name(new_state.current_gallery).unwrap(),
            )),
            r is Err ==> *final(self) == *old(self) && r == Err::<(), StateError>(
                StateError::UnknownGallery,
            ),
            r is Ok ==> {
                &&& same_static_config(*old(self), *final(self))
                &&& final(self).update_slots == old(self).update_slots
                &&& final(self).persistent.current_gallery == new_state.current_gallery
                &&& final(self).persistent.recently_selected.cap() == old(
                    self,
                ).persistent.recently_selected.cap()
                &&& final(self).persistent.recently_selected.contents() == spec_retained(
                    new_state.recently_selected.deep_view(),
                    old(self).persistent.recently_selected.cap(),
                )
                &&& final(self).persistent.is_paused == new_state.is_paused
                &&& final(self).update_interval == old(self).update_interval.spec_pause(
                    new_state.is_paused,
                    now,
                )
            },
    {
        match &new_state.current_gallery {
            Some(name) => {
                if find_gallery(&self.galleries, name).is_none() {
                    return Err(StateError::UnknownGallery);
                }
            },
            None => {},
        }

        let cap = self.persistent.recently_selected.capacity();
        let mut buffer = RecencyBuffer::with_capacity(cap);
        let items = &new_state.recently_selected;
        let mut i: usize = 0;
        while i < items.len()
            invariant
                i <= items@.len(),
                buffer.cap() == cap,
                buffer.wf(),
                buffer.contents() == spec_retained(items.deep_view().take(i as int), cap as nat),
            decreases items@.len() - i,
        {
            let ghost pre = items.deep_view().take(i as int);
            buffer.push(items[i].clone());
            proof {
                lemma_ring_push_retained(pre, cap as nat, items.deep_view()[i as int]);
                assert(items.deep_view()[i as int] == items@[i as int]@);
                assert(pre.push(items.deep_view()[i as int]) =~= items.deep_view().take(
                    i as int + 1,
                ));
            }
            i += 1;
        }
        proof {
            assert(items.deep_view().take(items@.len() as int) =~= items.deep_view());
        }

        let is_paused = new_state.is_paused;
        self.persistent = PersistentState {
            current_gallery: new_state.current_gallery,
            recently_selected: buffer,
            is_paused,
        };
        self.update_interval.pause(is_paused, now);
        Ok(())
    }

    /// Trigger one update over the given candidate files: select a path,
    /// remember it, build its display command and hand it to the
    /// single-flight slots. With no candidates nothing at all happens. The
    /// caller launches the running command on `Launched` and writes a
    /// snapshot on anything but `NoCandidates`.
    pub fn update(&mut self, files: &Vec<String>) -> (r: UpdateOutcome)
        requires
            old(self).wf(),
        ensures
            final(self).wf(),
            r is NoCandidates <==> files@.len() == 0,
            r is NoCandidates ==> *final(self) == *old(self),
            !(r is NoCandidates) ==> {
                &&& same_static_config(*old(self), *final(self))
                &&& final(self).update_interval == old(self).update_interval
                &&& final(self).persistent.current_gallery == old(self).persistent.current_gallery
                &&& final(self).persistent.is_paused == old(self).persistent.is_paused
            },
            r matches UpdateOutcome::Launched { path } ==> {
                &&& old(self).update_slots.running is None
                &&& files.deep_view().contains(path@)
                &&& spec_updated_with(*old(self), *final(self), path@)
            },
            r matches UpdateOutcome::Queued { path, discarded } ==> {
                &&& old(self).update_slots.running is Some
                &&& discarded == (old(self).update_slots.pending is Some)
                &&& files.deep_view().contains(path@)
                &&& spec_updated_with(*old(self), *final(self), path@)
            },
    {
        let path = match select_random_image(
            files,
            &mut self.persistent.recently_selected,
            self.number_retries,
        ) {
            None => {
                return UpdateOutcome::NoCandidates;
            },
            Some(path) => path,
        };

        let cmd = self.display_command.build(&path);
        let ghost gcmd = cmd;
        let action = self.update_slots.request_update(cmd);
        proof {
            assert(self.update_slots == spec_request(old(self).update_slots, gcmd));
        }
        match action {
            UpdateAction::Launched => UpdateOutcome::Launched { path },
            UpdateAction::Queued { discarded } => UpdateOutcome::Queued { path, discarded },
        }
    }

    /// Set or clear the pause, in the timer and in the persistent subset.
    fn apply_pause(&mut self, paused: bool, now: u64) -> (r: DispatchResult)
        requires
            old(self).wf(),
            now >= old(self).update_interval.last_interaction,
        ensures
            final(self).wf(),
            same_static_config(*old(self), *final(self)),
            final(self).update_slots == old(self).update_slots,
            final(self).persistent.current_gallery == old(self).persistent.current_gallery,
            final(self).persistent.recently_selected == old(self).persistent.recently_selected,
            final(self).persistent.is_paused == paused,
            final(self).update_interval == old(self).update_interval.spec_pause(paused, now),
            r.response is Success,
            !r.needs_update,
            r.needs_persist,
    {
        self.update_interval.pause(paused, now);
        self.persistent.is_paused = paused;
        DispatchResult { response: Response::Success, needs_update: false, needs_persist: true }
    }

    /// Dispatch one inbound message into a state mutation and a response,
    /// uniformly for every transport. A message that could
    /// not be decoded changes nothing and is answered `BadRequest`; an
    /// unknown gallery name changes nothing and is answered
    /// `InvalidGallery`; everything else is carried out.
    pub fn handle_message(&mut self, msg: &Result<Request, String>, now: u64) -> (r:
        DispatchResult)
        requires
            old(self).wf(),
            now >= old(self).update_interval.last_interaction,
            now + old(self).update_interval.interval <= u64::MAX,
        ensures
            final(self).wf(),
            spec_dispatched(*old(self), *final(self), *msg, now, r),
    {
        match msg {
            Err(m) => DispatchResult {
                response: Response::BadRequest { message: m.clone() },
                needs_update: false,
                needs_persist: false,
            },
            Ok(Request::NextImage) => {
                self.update_interval.reset(now);
                DispatchResult {
                    response: Response::NewImage,
                    needs_update: true,
                    needs_persist: false,
                }
            },
            Ok(Request::UpdateInterval { millis }) => {
                let was_paused = self.update_interval.is_paused();
                self.update_interval = PausableInterval::new(*millis, now);
                self.update_interval.pause(was_paused, now);
                DispatchResult {
                    response: Response::NewImage,
                    needs_update: false,
                    needs_persist: false,
                }
            },
            Ok(Request::SelectGallery { name, refresh }) => {
                match self.change_gallery(name) {
                    Err(_) => DispatchResult {
                        response: Response::InvalidGallery,
                        needs_update: false,
                        needs_persist: false,
                    },
                    Ok(_) => DispatchResult {
                        response: Response::NewImage,
                        needs_update: *refresh,
                        needs_persist: true,
                    },
                }
            },
            Ok(Request::Pause) => self.apply_pause(true, now),
            Ok(Request::Resume) => self.apply_pause(false, now),
        }
    }
}

/// One source of the control loop's multiplexed wait: whichever of these
/// happens first drives the next iteration.
pub enum MainEvent {
    /// The timer's period completed.
    TimerCompleted,
    /// The running display process exited.
    ProcessExited,
    /// A request arrived from a listener, decoded or not.
    Message(Result<Request, String>),
    /// Every listener is gone: no further request can arrive.
    SourcesClosed,
    /// The operator asked the daemon to stop.
    ShutdownRequested,
}

/// Whether the control loop goes on after an event.
#[derive(Clone, Copy, Debug, PartialEq, Eq, Structural)]
pub enum LoopDecision {
    /// Keep multiplexing.
    Continue,
    /// Leave the loop in an orderly way.
    ExitShutdown,
    /// Leave the loop with an error: no message can ever arrive again.
    ExitNoMessages,
}

/// What one control-loop iteration asks of its caller.
pub struct EventOutcome {
    pub decision: LoopDecision,
    /// The answer to send through the message's reply capability.
    pub response: Option<Response>,
    /// Enumerate the current gallery's files and call `update`.
    pub needs_update: bool,
    /// Write a snapshot of the persistent subset.
    pub needs_persist: bool,
    /// Launch the command now in the running slot.
    pub launch: bool,
}

impl ApplicationState {
    /// One step of the control loop: turn whichever event won the
    /// multiplexed wait into its state change and follow-up work. Only a
    /// shutdown or the loss of every message source ends the loop; a
    /// process exit advances the single-flight lifecycle; a message is
    /// dispatched; a timer completion asks for an update.
    pub fn handle_event(&mut self, event: MainEvent, now: u64) -> (r: EventOutcome)
        requires
            old(self).wf(),
            now >= old(self).update_interval.last_interaction,
            now + old(self).update_interval.interval <= u64::MAX,
        ensures
            final(self).wf(),
            event matches MainEvent::TimerCompleted ==> *final(self) == *old(self) && r.decision
                == LoopDecision::Continue && r.response is None && r.needs_update
                && !r.needs_persist && !r.launch,
            event matches MainEvent::ProcessExited ==> {
                &&& final(self).update_slots == spec_exit(old(self).update_slots)
                &&& r.launch == (old(self).update_slots.pending is Some)
                &&& same_static_config(*old(self), *final(self))
                &&& final(self).update_interval == old(self).update_interval
                &&& final(self).persistent == old(self).persistent
                &&& r.decision == LoopDecision::Continue
                &&& r.response is None
                &&& !r.needs_update
                &&& !r.needs_persist
            },
            event matches MainEvent::Message(m) ==> {
                &&& r.response matches Some(resp) && spec_dispatched(
                    *old(self),
                    *final(self),
                    m,
                    now,
                    (DispatchResult {
                        response: resp,
                        needs_update: r.needs_update,
                        needs_persist: r.needs_persist,
                    }),
                )
                &&& r.decision == LoopDecision::Continue
                &&& !r.launch
            },
            event matches MainEvent::SourcesClosed ==> *final(self) == *old(self) && r.decision
                == LoopDecision::ExitNoMessages && r.response is None && !r.needs_update
                && !r.needs_persist && !r.launch,
            event matches MainEvent::ShutdownRequested ==> *final(self) == *old(self) && r.decision
                == LoopDecision::ExitShutdown && r.response is None && !r.needs_update
                && !r.needs_persist && !r.launch,
    {
        match event {
            MainEvent::TimerCompleted => EventOutcome {
                decision: LoopDecision::Continue,
                response: None,
                needs_update: true,
                needs_persist: false,
                launch: false,
            },
            MainEvent::ProcessExited => {
                let launch = self.update_slots.on_process_exit();
                EventOutcome {
                    decision: LoopDecision::Continue,
                    response: None,
                    needs_update: false,
                    needs_persist: false,
                    launch,
                }
            },
            MainEvent::Message(m) => {
                let d = self.handle_message(&m, now);
                EventOutcome {
                    decision: LoopDecision::Continue,
                    response: Some(d.response),
                    needs_update: d.needs_update,
                    needs_persist: d.needs_persist,
                    launch: false,
                }
            },
            MainEvent::SourcesClosed => EventOutcome {
                decision: LoopDecision::ExitNoMessages,
                response: None,
                needs_update: false,
                needs_persist: false,
                launch: false,
            },
            MainEvent::ShutdownRequested => EventOutcome {
                decision: LoopDecision::ExitShutdown,
                response: None,
                needs_update: false,
                needs_persist: false,
                launch: false,
            },
        }
    }
}

/// Everything the configuration supplies, fully resolved: paths expanded,
/// values defaulted. The library applies it; connecting listeners, loading
/// the stored snapshot and the immediate first update are its caller's
/// work, guided by `listeners` and `update_immediately`.
pub struct Configuration {
    /// The display command line; its first space-separated token is the
    /// program.
    pub command_line: String,
    /// Milliseconds between two images.
    pub update_interval_ms: u64,
    /// The gallery selected at startup; it must be among `galleries`.
    pub default_gallery: String,
    pub galleries: Vec<Gallery>,
    /// Whether to select an image immediately on startup rather than after
    /// the first interval.
    pub update_immediately: bool,
    pub listeners: Vec<ListenerConfiguration>,
    /// How many recently shown paths to remember.
    pub recent_image_buffer_size: usize,
    /// How many extra draws may reject a recent repeat.
    pub number_retries: u32,
    /// File name the snapshot is stored under; nothing is persisted
    /// without one.
    pub storage_file: Option<String>,
}

impl ApplicationState {
    /// Apply a configuration: load the gallery table (of entries sharing a
    /// name the last wins), select the default gallery, parse the command
    /// line, restart the timer unpaused with the new interval, and set the
    /// retry budget, buffer capacity and storage name. A buffer capacity
    /// change discards the remembered paths. An unknown default gallery
    /// changes nothing and is refused.
    pub fn update_configuration(&mut self, config: Configuration, now: u64) -> (r: Result<
        (),
        StateError,
    >)
        requires
            old(self).wf(),
        ensures
            final(self).wf(),
            r is Ok <==> has_gallery(
                spec_registry(config.galleries.deep_view()),
                config.default_gallery@,
            ),
            r is Err ==> *final(self) == *old(self) && r == Err::<(), StateError>(
                StateError::UnknownGallery,
            ),
            r is Ok ==> {
                &&& final(self).galleries.deep_view() == spec_registry(
                    config.galleries.deep_view(),
                )
                &&& opt_name(final(self).persistent.current_gallery) == Some(
                    config.default_gallery@,
                )
                &&& final(self).display_command.program@ == spec_split_spaces(
                    config.command_line@,
                )[0]
                &&& final(self).display_command.parts.deep_view() == spec_parse_args(
                    spec_split_spaces(config.command_line@).drop_first(),
                )
                &&& final(self).update_interval == PausableInterval::spec_new(
                    config.update_interval_ms,
                    now,
                )
                &&& final(self).persistent.is_paused == false
                &&& final(self).number_retries == config.number_retries
                &&& final(self).persistent.recently_selected.cap()
                    == config.recent_image_buffer_size
                &&& (config.recent_image_buffer_size == old(self).persistent.recently_selected.cap()
                    ==> final(self).persistent.recently_selected == old(
                    self,
                ).persistent.recently_selected)
                &&& (config.recent_image_buffer_size != old(self).persistent.recently_selected.cap()
                    ==> final(self).persistent.recently_selected.contents() == Seq::<
                    Seq<char>,
                >::empty())
                &&& opt_name(final(self).storage_file) == opt_name(config.storage_file)
                &&& final(self).update_slots == old(self).update_slots
            },
    {
        let ghost gs = config.galleries.deep_view();
        let mut remaining = config.galleries;
        let mut registry: Vec<Gallery> = Vec::new();
        let ghost total = gs.len();
        while remaining.len() > 0
            invariant
                remaining.deep_view() =~= gs.skip(total - remaining@.len() as int),
                remaining@.len() <= total,
                total == gs.len(),
                unique_names(registry.deep_view()),
                registry.deep_view() == spec_registry(gs.take(total - remaining@.len() as int)),
            decreases remaining@.len(),
        {
            let ghost done = total - remaining@.len() as int;
            let ghost pre_rem = remaining@;
            let ghost pre_deep = remaining.deep_view();
            let g = remaining.remove(0);
            proof {
                assert(pre_deep[0] == pre_rem[0].deep_view());
                assert(g.deep_view() == gs[done]);
                assert forall|k: int| 0 <= k < remaining.deep_view().len() implies
                    remaining.deep_view()[k] == gs.skip(done + 1)[k] by {
                    assert(remaining.deep_view()[k] == remaining@[k].deep_view());
                    assert(remaining@[k] == pre_rem[k + 1]);
                    assert(pre_deep[k + 1] == pre_rem[k + 1].deep_view());
                }
                assert(remaining.deep_view() =~= gs.skip(done + 1));
                assert(gs.take(done + 1).drop_last() =~= gs.take(done));
                assert(gs.take(done + 1).last() == gs[done]);
            }
            insert_gallery(&mut registry, g);
        }
        proof {
            assert(gs.take(total as int) =~= gs);
        }

        if find_gallery(&registry, &config.default_gallery).is_none() {
            return Err(StateError::UnknownGallery);
        }

        self.galleries = registry;
        self.display_command = CommandTemplate::parse(config.command_line.as_str());
        self.update_interval = PausableInterval::new(config.update_interval_ms, now);
        self.persistent.current_gallery = Some(config.default_gallery);
        self.persistent.is_paused = false;
        self.number_retries = config.number_retries;
        if config.recent_image_buffer_size != self.persistent.recently_selected.capacity() {
            self.persistent.recently_selected = RecencyBuffer::with_capacity(
                config.recent_image_buffer_size,
            );
        }
        self.storage_file = config.storage_file;
        Ok(())
    }
}

} // verus!
