use vstd::prelude::*;

use crate::geometry::{extent_wf, free_identity_transform, screen_rect_transform, ComponentTransform, Vec2u};
use crate::instances::{recalc_post, Instance, InstanceBufferManager, InstanceData};
use crate::layout::{compute_layout, layout_pre, spec_layout_rects, spec_layout_texts, LayoutOutput};
use crate::store::ValueStore;
use crate::text::{TextCollection, TextLabel};
use crate::widget::{nav_down, nav_up, ListAnchor, ListInterface};

verus! {

/// What the frame loop should do next.
#[derive(Clone, Copy, Debug, PartialEq, Eq, Structural, Default)]
pub enum FlowCommand {
    #[default]
    Idle,
    Quit,
}

/// A discrete input event, as the windowing shell hands it over: the
/// core never reads input devices itself.
#[derive(Clone, Copy, Debug, PartialEq, Eq, Structural)]
pub enum InputEvent {
    Up,
    Down,
    Resize(u32, u32),
    Quit,
}

/// What to do about a watched file that changed.
#[derive(Clone, Copy, Debug, PartialEq, Eq, Structural)]
pub enum FileWatcherAction {
    ReloadShader,
}

/// One watched file: its path, the modification time it was registered
/// with (milliseconds of some fixed epoch), and what a change asks for.
pub struct FileWatcherEntry {
    pub path: String,
    pub last_modified_ms: u64,
    pub action: FileWatcherAction,
}

/// The watched files, polled by the shell, which reads modification
/// times and performs the actions; the decision of which file is stale
/// is made here.
pub struct FileWatcher {
    pub entries: Vec<FileWatcherEntry>,
}

impl FileWatcher {
    pub fn new() -> (w: Self)
        ensures
            w.entries@.len() == 0,
    {
        FileWatcher { entries: Vec::new() }
    }

    /// Registers a path with the modification time observed at
    /// registration; a later modification asks for a shader reload.
    pub fn add_path(&mut self, path: &str, last_modified_ms: u64)
        ensures
            final(self).entries@.len() == old(self).entries@.len() + 1,
            forall|i: int|
                0 <= i < old(self).entries@.len() ==> final(self).entries@[i] == old(
                    self,
                ).entries@[i],
            final(self).entries@.last().path@ == path@,
            final(self).entries@.last().last_modified_ms == last_modified_ms,
            final(self).entries@.last().action == FileWatcherAction::ReloadShader,
    {
        self.entries.push(
            FileWatcherEntry {
                path: path.to_owned(),
                last_modified_ms,
                action: FileWatcherAction::ReloadShader,
            },
        );
    }

    pub fn len(&self) -> (n: usize)
        ensures
            n == self.entries@.len(),
    {
        self.entries.len()
    }

    pub fn path_at(&self, i: usize) -> (p: &String)
        requires
            i < self.entries@.len(),
        ensures
            p@ == self.entries@[i as int].path@,
    {
        &self.entries[i].path
    }

    /// The action owed for entry `i` given its current modification
    /// time: its registered action exactly when the file is newer than
    /// at registration, nothing otherwise.
    pub fn stale_action(&self, i: usize, modified_ms: u64) -> (r: Option<FileWatcherAction>)
        requires
            i < self.entries@.len(),
        ensures
            r == if modified_ms > self.entries@[i as int].last_modified_ms {
                Some(self.entries@[i as int].action)
            } else {
                Option::<FileWatcherAction>::None
            },
    {
        if modified_ms > self.entries[i].last_modified_ms {
            Some(self.entries[i].action)
        } else {
            None
        }
    }
}

/// The default navigation cooldown: a navigation event within this many
/// milliseconds of the last accepted one is ignored.
pub const DEFAULT_UI_WAIT_MS: u64 = 60;

/// The instance-buffer capacity of a list's render group.
pub const LIST_GROUP_CAPACITY: usize = 512;

/// Whether a navigation event at `now_ms` passes the cooldown: no
/// navigation was accepted yet, or the cooldown interval has elapsed
/// since the last accepted one.
pub open spec fn nav_accepted(last: Option<u64>, wait_ms: u64, now_ms: u64) -> bool {
    match last {
        Option::None => true,
        Option::Some(t) => t + wait_ms <= now_ms,
    }
}

/// The frame-loop state the core owns: the list widgets, the navigation
/// cooldown clock, the per-group instance staging, the text primitives
/// of the current frame, the watched files, and the viewport extent.
/// Window, surface and device live with the shell around it.
pub struct State {
    pub title: Option<String>,
    pub flow_command: FlowCommand,
    pub listuis: Vec<ListInterface>,
    pub ui_wait_ms: u64,
    pub last_ui_time_ms: Option<u64>,
    pub texts: TextCollection,
    pub groups: Vec<InstanceBufferManager>,
    pub viewport: Vec2u,
    pub file_watcher: FileWatcher,
}

impl State {
    /// A usable viewport, well-formed instance groups, and list sizes
    /// within the navigation index range.
    pub open spec fn wf(&self) -> bool {
        &&& extent_wf(self.viewport)
        &&& forall|g: int| 0 <= g < self.groups@.len() ==> (#[trigger] self.groups@[g]).wf()
        &&& forall|l: int|
            0 <= l < self.listuis@.len() ==> (#[trigger] self.listuis@[l]).entries@.len()
                <= i32::MAX
    }

    pub fn new(width: u32, height: u32, title: &str) -> (s: State)
        requires
            0 < width <= i32::MAX,
            0 < height <= i32::MAX,
        ensures
            s.wf(),
            s.title matches Some(t) && t@ == title@,
            s.flow_command == FlowCommand::Idle,
            s.listuis@.len() == 0,
            s.groups@.len() == 0,
            s.texts.texts@.len() == 0,
            s.ui_wait_ms == DEFAULT_UI_WAIT_MS,
            s.last_ui_time_ms is None,
            s.viewport == (Vec2u { x: width, y: height }),
            s.file_watcher.entries@.len() == 0,
    {
        State {
            title: Some(title.to_owned()),
            flow_command: FlowCommand::Idle,
            listuis: Vec::new(),
            ui_wait_ms: DEFAULT_UI_WAIT_MS,
            last_ui_time_ms: None,
            texts: TextCollection::new(),
            groups: Vec::new(),
            viewport: Vec2u { x: width, y: height },
            file_watcher: FileWatcher::new(),
        }
    }

    /// Creates a fresh list widget with its own render group and
    /// returns its index.
    pub fn new_listui(&mut self) -> (idx: usize)
        requires
            old(self).wf(),
        ensures
            final(self).wf(),
            idx == old(self).listuis@.len(),
            final(self).groups@.len() == old(self).groups@.len() + 1,
            forall|g: int|
                0 <= g < old(self).groups@.len() ==> final(self).groups@[g] == old(
                    self,
                ).groups@[g],
            final(self).groups@.last().data@.len() == 0,
            final(self).groups@.last().staged@.len() == LIST_GROUP_CAPACITY,
            final(self).listuis@.len() == old(self).listuis@.len() + 1,
            forall|l: int|
                0 <= l < old(self).listuis@.len() ==> final(self).listuis@[l] == old(
                    self,
                ).listuis@[l],
            final(self).listuis@.last().render_group_index == old(self).groups@.len(),
            final(self).listuis@.last().entries@.len() == 0,
            final(self).listuis@.last().selected_index == 0,
            final(self).listuis@.last().anchor == ListAnchor::Left,
            final(self).title == old(self).title,
            final(self).flow_command == old(self).flow_command,
            final(self).ui_wait_ms == old(self).ui_wait_ms,
            final(self).last_ui_time_ms == old(self).last_ui_time_ms,
            final(self).texts == old(self).texts,
            final(self).viewport == old(self).viewport,
            final(self).file_watcher == old(self).file_watcher,
    {
        let render_group_index = self.groups.len();
        self.groups.push(InstanceBufferManager::new(LIST_GROUP_CAPACITY));
        let idx = self.listuis.len();
        self.listuis.push(ListInterface::default(render_group_index));
        idx
    }

    /// Records a new viewport extent. Reconfiguring the surface itself
    /// is the shell's work.
    pub fn resize(&mut self, width: u32, height: u32)
        requires
            old(self).wf(),
            0 < width <= i32::MAX,
            0 < height <= i32::MAX,
        ensures
            final(self).wf(),
            *final(self) == (State { viewport: Vec2u { x: width, y: height }, ..*old(self) }),
    {
        self.viewport = Vec2u { x: width, y: height };
    }

    /// Consumes one input event at time `now_ms`. Navigation events
    /// move every list's selection, wrap-around, rate-limited by the
    /// cooldown; a quit request sets the flow command; a resize records
    /// the new extent and returns the indices of the lists that must be
    /// laid out again (every list that is not hidden). Navigation never
    /// faults, whatever the lists hold.
    pub fn handle_event(&mut self, ev: InputEvent, now_ms: u64) -> (relayout: Vec<usize>)
        requires
            old(self).wf(),
            ev matches InputEvent::Resize(w, h) ==> 0 < w <= i32::MAX && 0 < h <= i32::MAX,
        ensures
            final(self).wf(),
            ev == InputEvent::Quit ==> *final(self) == (State {
                flow_command: FlowCommand::Quit,
                ..*old(self)
            }) && relayout@.len() == 0,
            ev == InputEvent::Up ==> relayout@.len() == 0 && (if nav_accepted(
                old(self).last_ui_time_ms,
                old(self).ui_wait_ms,
                now_ms,
            ) {
                &&& final(self).listuis@.len() == old(self).listuis@.len()
                &&& forall|l: int|
                    0 <= l < old(self).listuis@.len() ==> final(self).listuis@[l]
                        == (ListInterface {
                        selected_index: nav_up(
                            old(self).listuis@[l].selected_index as int,
                            old(self).listuis@[l].entries@.len() as int,
                        ) as i32,
                        ..old(self).listuis@[l]
                    })
                &&& final(self).last_ui_time_ms == Some(now_ms)
                &&& final(self).flow_command == old(self).flow_command
                &&& final(self).title == old(self).title
                &&& final(self).ui_wait_ms == old(self).ui_wait_ms
                &&& final(self).texts == old(self).texts
                &&& final(self).groups == old(self).groups
                &&& final(self).viewport == old(self).viewport
                &&& final(self).file_watcher == old(self).file_watcher
            } else {
                *final(self) == *old(self)
            }),
            ev == InputEvent::Down ==> relayout@.len() == 0 && (if nav_accepted(
                old(self).last_ui_time_ms,
                old(self).ui_wait_ms,
                now_ms,
            ) {
                &&& final(self).listuis@.len() == old(self).listuis@.len()
                &&& forall|l: int|
                    0 <= l < old(self).listuis@.len() ==> final(self).listuis@[l]
                        == (ListInterface {
                        selected_index: nav_down(
                            old(self).listuis@[l].selected_index as int,
                            old(self).listuis@[l].entries@.len() as int,
                        ) as i32,
                        ..old(self).listuis@[l]
                    })
                &&& final(self).last_ui_time_ms == Some(now_ms)
                &&& final(self).flow_command == old(self).flow_command
                &&& final(self).title == old(self).title
                &&& final(self).ui_wait_ms == old(self).ui_wait_ms
                &&& final(self).texts == old(self).texts
                &&& final(self).groups == old(self).groups
                &&& final(self).viewport == old(self).viewport
                &&& final(self).file_watcher == old(self).file_watcher
            } else {
                *final(self) == *old(self)
            }),
            ev matches InputEvent::Resize(w, h) ==> {
                &&& *final(self) == (State { viewport: Vec2u { x: w, y: h }, ..*old(self) })
                &&& forall|l: int|
                    0 <= l < old(self).listuis@.len() ==> (!(old(self).listuis@[l].anchor
                        is Hidden) <==> relayout@.contains(l as usize))
                &&& forall|j: int|
                    0 <= j < relayout@.len() ==> relayout@[j] < old(self).listuis@.len()
            },
    {
        match ev {
            InputEvent::Quit => {
                self.flow_command = FlowCommand::Quit;
                Vec::new()
            },
            InputEvent::Up => {
                let ok = match self.last_ui_time_ms {
                    Option::None => true,
                    Option::Some(t) => (t as u128) + (self.ui_wait_ms as u128) <= (now_ms as u128),
                };
                if ok {
                    let m = self.listuis.len();
                    for l in 0..m
                        invariant
                            m == self.listuis@.len(),
                            m == old(self).listuis@.len(),
                            forall|k: int|
                                0 <= k < self.listuis@.len() ==> (
                                #[trigger] self.listuis@[k]).entries@.len() <= i32::MAX,
                            forall|k: int| l <= k < m ==> self.listuis@[k] == old(self).listuis@[k],
                            forall|k: int|
                                0 <= k < l ==> self.listuis@[k] == (ListInterface {
                                    selected_index: nav_up(
                                        old(self).listuis@[k].selected_index as int,
                                        old(self).listuis@[k].entries@.len() as int,
                                    ) as i32,
                                    ..old(self).listuis@[k]
                                }),
                            self.title == old(self).title,
                            self.flow_command == old(self).flow_command,
                            self.ui_wait_ms == old(self).ui_wait_ms,
                            self.last_ui_time_ms == old(self).last_ui_time_ms,
                            self.texts == old(self).texts,
                            self.groups == old(self).groups,
                            self.viewport == old(self).viewport,
                            self.file_watcher == old(self).file_watcher,
                    {
                        self.listuis[l].navigate_up();
                    }
                    self.last_ui_time_ms = Some(now_ms);
                }
                Vec::new()
            },
            InputEvent::Down => {
                let ok = match self.last_ui_time_ms {
                    Option::None => true,
                    Option::Some(t) => (t as u128) + (self.ui_wait_ms as u128) <= (now_ms as u128),
                };
                if ok {
                    let m = self.listuis.len();
                    for l in 0..m
                        invariant
                            m == self.listuis@.len(),
                            m == old(self).listuis@.len(),
                            forall|k: int|
                                0 <= k < self.listuis@.len() ==> (
                                #[trigger] self.listuis@[k]).entries@.len() <= i32::MAX,
                            forall|k: int| l <= k < m ==> self.listuis@[k] == old(self).listuis@[k],
                            forall|k: int|
                                0 <= k < l ==> self.listuis@[k] == (ListInterface {
                                    selected_index: nav_down(
                                        old(self).listuis@[k].selected_index as int,
                                        old(self).listuis@[k].entries@.len() as int,
                                    ) as i32,
                                    ..old(self).listuis@[k]
                                }),
                            self.title == old(self).title,
                            self.flow_command == old(self).flow_command,
                            self.ui_wait_ms == old(self).ui_wait_ms,
                            self.last_ui_time_ms == old(self).last_ui_time_ms,
                            self.texts == old(self).texts,
                            self.groups == old(self).groups,
                            self.viewport == old(self).viewport,
                            self.file_watcher == old(self).file_watcher,
                    {
                        self.listuis[l].navigate_down();
                    }
                    self.last_ui_time_ms = Some(now_ms);
                }
                Vec::new()
            },
            InputEvent::Resize(w, h) => {
                self.viewport = Vec2u { x: w, y: h };
                let m = self.listuis.len();
                let mut relayout: Vec<usize> = Vec::new();
                for l in 0..m
                    invariant
                        m == self.listuis@.len(),
                        *self == (State {
                            viewport: Vec2u { x: w, y: h },
                            ..*old(self)
                        }),
                        forall|k: int|
                            0 <= k < l ==> (!(old(self).listuis@[k].anchor is Hidden)
                                <==> relayout@.contains(k as usize)),
                        forall|j: int| 0 <= j < relayout@.len() ==> relayout@[j] < l,
                {
                    let hidden = matches!(self.listuis[l].anchor, ListAnchor::Hidden);
                    if !hidden {
                        let ghost before = relayout@;
                        relayout.push(l);
                        proof {
                            assert forall|k: int| 0 <= k < l + 1 implies (!(old(
                                self,
                            ).listuis@[k].anchor is Hidden) <==> relayout@.contains(k as usize)) by {
                                vstd::seq_lib::lemma_seq_contains_after_push(
                                    before,
                                    l,
                                    k as usize,
                                );
                            }
                        }
                    } else {
                        proof {
                            if relayout@.contains(l as usize) {
                                let j = choose|j: int|
                                    0 <= j < relayout@.len() && relayout@[j] == l as usize;
                                assert(relayout@[j] < l);
                                assert(false);
                            }
                        }
                    }
                }
                relayout
            },
        }
    }

    /// One full layout pass for the list at `listui_index`: the frame's
    /// text primitives are rebuilt and the list's render group is
    /// cleared and repopulated from the current widget state and bound
    /// values, with the measured label and value widths driving the
    /// horizontal placement.
    pub fn layout_listui(
        &mut self,
        store: &ValueStore,
        listui_index: usize,
        label_widths: &Vec<u32>,
        value_widths: &Vec<u32>,
    )
        requires
            old(self).wf(),
            listui_index < old(self).listuis@.len(),
            layout_pre(
                old(self).listuis@[listui_index as int],
                *store,
                old(self).viewport,
                label_widths@,
                value_widths@,
            ),
            old(self).listuis@[listui_index as int].render_group_index < old(self).groups@.len(),
            old(self).groups@[old(self).listuis@[listui_index as int].render_group_index as int].staged@.len()
                >= old(self).listuis@[listui_index as int].entries@.len() + 1,
        ensures
            final(self).wf(),
            final(self).texts.texts@.map_values(|t: TextLabel| t@) == spec_layout_texts(
                old(self).listuis@[listui_index as int],
                store@,
                old(self).viewport,
                label_widths@,
            ),
            ({
                let li = old(self).listuis@[listui_index as int];
                let rg = li.render_group_index as int;
                let rects = spec_layout_rects(li, old(self).viewport, label_widths@, value_widths@);
                &&& final(self).groups@.len() == old(self).groups@.len()
                &&& forall|g: int|
                    0 <= g < old(self).groups@.len() && g != rg ==> final(self).groups@[g] == old(
                        self,
                    ).groups@[g]
                &&& final(self).groups@[rg].data@.len() == rects.len()
                &&& final(self).groups@[rg].staged@.len() == old(self).groups@[rg].staged@.len()
                &&& forall|j: int|
                    0 <= j < rects.len() ==> final(self).groups@[rg].data@[j] == (Instance {
                        needs_update: false,
                        transform: screen_rect_transform(rects[j].rect),
                        tex_transform: free_identity_transform(),
                        color: rects[j].color,
                    })
                &&& forall|j: int|
                    0 <= j < rects.len() ==> final(self).groups@[rg].staged@[j] == (InstanceData {
                        transform: screen_rect_transform(rects[j].rect),
                        tex_transform: free_identity_transform(),
                        color: rects[j].color,
                    })
                &&& forall|j: int|
                    rects.len() <= j < old(self).groups@[rg].staged@.len()
                        ==> final(self).groups@[rg].staged@[j] == old(self).groups@[rg].staged@[j]
            }),
            final(self).listuis == old(self).listuis,
            final(self).title == old(self).title,
            final(self).flow_command == old(self).flow_command,
            final(self).ui_wait_ms == old(self).ui_wait_ms,
            final(self).last_ui_time_ms == old(self).last_ui_time_ms,
            final(self).viewport == old(self).viewport,
            final(self).file_watcher == old(self).file_watcher,
    {
        let out = compute_layout(
            &self.listuis[listui_index],
            store,
            self.viewport,
            label_widths,
            value_widths,
        );
        let LayoutOutput { texts, rects } = out;
        self.texts = TextCollection { texts };
        let rg = self.listuis[listui_index].render_group_index;
        self.groups[rg].clear();
        let ghost spec_rects = spec_layout_rects(
            old(self).listuis@[listui_index as int],
            old(self).viewport,
            label_widths@,
            value_widths@,
        );
        let nrects = rects.len();
        proof {
            assert(rects@.len() <= old(self).listuis@[listui_index as int].entries@.len() + 1);
        }
        for j in 0..nrects
            invariant
                nrects == rects@.len(),
                rects@ == spec_rects,
                spec_rects == spec_layout_rects(
                    old(self).listuis@[listui_index as int],
                    old(self).viewport,
                    label_widths@,
                    value_widths@,
                ),
                extent_wf(old(self).viewport),
                forall|k: int|
                    0 <= k < rects@.len() ==> (#[trigger] rects@[k]).rect.extent == old(
                        self,
                    ).viewport,
                rg == old(self).listuis@[listui_index as int].render_group_index,
                rg < self.groups@.len(),
                self.groups@.len() == old(self).groups@.len(),
                forall|g: int|
                    0 <= g < old(self).groups@.len() && g != rg ==> self.groups@[g] == old(
                        self,
                    ).groups@[g],
                self.groups@[rg as int].wf(),
                self.groups@[rg as int].data@.len() == j,
                self.groups@[rg as int].staged@.len() == old(
                    self,
                ).groups@[rg as int].staged@.len(),
                self.groups@[rg as int].staged@.len() >= nrects,
                forall|k: int|
                    0 <= k < j ==> self.groups@[rg as int].data@[k] == (Instance {
                        needs_update: false,
                        transform: screen_rect_transform(spec_rects[k].rect),
                        tex_transform: free_identity_transform(),
                        color: spec_rects[k].color,
                    }),
                forall|k: int|
                    0 <= k < j ==> self.groups@[rg as int].staged@[k] == (InstanceData {
                        transform: screen_rect_transform(spec_rects[k].rect),
                        tex_transform: free_identity_transform(),
                        color: spec_rects[k].color,
                    }),
                forall|k: int|
                    j <= k < old(self).groups@[rg as int].staged@.len() ==> self.groups@[rg
                        as int].staged@[k] == old(self).groups@[rg as int].staged@[k],
                self.listuis == old(self).listuis,
                self.title == old(self).title,
                self.flow_command == old(self).flow_command,
                self.ui_wait_ms == old(self).ui_wait_ms,
                self.last_ui_time_ms == old(self).last_ui_time_ms,
                self.viewport == old(self).viewport,
                self.file_watcher == old(self).file_watcher,
                self.texts.texts@.map_values(|t: TextLabel| t@) == spec_layout_texts(
                    old(self).listuis@[listui_index as int],
                    store@,
                    old(self).viewport,
                    label_widths@,
                ),
        {
            let r = rects[j];
            let t = ComponentTransform::unit_square_transform_from_pixel_rect(r.rect);
            self.groups[rg].add_instance(t, ComponentTransform::default(), r.color);
        }
    }

    /// Recomputes, in every render group, the placement of every stale
    /// pixel-derived instance against the current viewport, and returns
    /// per group the slots that must be re-uploaded.
    pub fn update(&mut self) -> (updated: Vec<Vec<usize>>)
        requires
            old(self).wf(),
        ensures
            final(self).wf(),
            updated@.len() == old(self).groups@.len(),
            final(self).groups@.len() == old(self).groups@.len(),
            forall|g: int|
                0 <= g < old(self).groups@.len() ==> recalc_post(
                    old(self).groups@[g],
                    final(self).groups@[g],
                    (#[trigger] updated@[g])@,
                    old(self).viewport,
                ),
            final(self).listuis == old(self).listuis,
            final(self).title == old(self).title,
            final(self).flow_command == old(self).flow_command,
            final(self).ui_wait_ms == old(self).ui_wait_ms,
            final(self).last_ui_time_ms == old(self).last_ui_time_ms,
            final(self).texts == old(self).texts,
            final(self).viewport == old(self).viewport,
            final(self).file_watcher == old(self).file_watcher,
    {
        let vp = self.viewport;
        let m = self.groups.len();
        let mut updated: Vec<Vec<usize>> = Vec::new();
        for g in 0..m
            invariant
                m == self.groups@.len(),
                m == old(self).groups@.len(),
                vp == old(self).viewport,
                extent_wf(vp),
                updated@.len() == g,
                forall|k: int| g <= k < m ==> self.groups@[k] == old(self).groups@[k],
                forall|k: int| 0 <= k < m ==> (#[trigger] self.groups@[k]).wf(),
                forall|k: int|
                    0 <= k < g ==> recalc_post(
                        old(self).groups@[k],
                        self.groups@[k],
                        (#[trigger] updated@[k])@,
                        vp,
                    ),
                self.listuis == old(self).listuis,
                self.title == old(self).title,
                self.flow_command == old(self).flow_command,
                self.ui_wait_ms == old(self).ui_wait_ms,
                self.last_ui_time_ms == old(self).last_ui_time_ms,
                self.texts == old(self).texts,
                self.viewport == old(self).viewport,
                self.file_watcher == old(self).file_watcher,
                forall|k: int|
                    0 <= k < self.listuis@.len() ==> (#[trigger] self.listuis@[k]).entries@.len()
                        <= i32::MAX,
        {
            let u = self.groups[g].recalc_screen_instances(vp);
            updated.push(u);
        }
        updated
    }
}

} // verus!
