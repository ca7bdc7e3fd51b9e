use vstd::prelude::*;

use crate::color::ColorRGBA;
use crate::store::{ListItemData, StoreError, Value, ValueStore};

verus! {

/// Per-state color pairs of a list widget: foreground and background for
/// the selected, unselected, activated and disabled looks, plus the
/// backdrop behind the whole list.
pub struct ListStyle {
    pub bg: ColorRGBA,
    pub li_selected: ColorRGBA,
    pub li_selected_bg: ColorRGBA,
    pub li_unselected: ColorRGBA,
    pub li_unselected_bg: ColorRGBA,
    pub li_activated: ColorRGBA,
    pub li_activated_bg: ColorRGBA,
    pub li_disabled: ColorRGBA,
    pub li_disabled_bg: ColorRGBA,
}

impl ListStyle {
    /// The stock grey-scale look.
    pub open spec fn default_spec() -> ListStyle {
        ListStyle {
            bg: ColorRGBA::grey_darkest_spec(),
            li_selected: ColorRGBA::white_spec(),
            li_selected_bg: ColorRGBA::grey_medium_spec(),
            li_activated: ColorRGBA::white_spec(),
            li_activated_bg: ColorRGBA::grey_lighter_spec(),
            li_unselected: ColorRGBA::grey_light_spec(),
            li_unselected_bg: ColorRGBA::grey_dark_spec(),
            li_disabled: ColorRGBA::grey_dark_spec(),
            li_disabled_bg: ColorRGBA::grey_darker_spec(),
        }
    }

    pub fn default() -> (s: ListStyle)
        ensures
            s == ListStyle::default_spec(),
    {
        ListStyle {
            bg: ColorRGBA::grey_darkest(),
            li_selected: ColorRGBA::white(),
            li_selected_bg: ColorRGBA::grey_medium(),
            li_activated: ColorRGBA::white(),
            li_activated_bg: ColorRGBA::grey_lighter(),
            li_unselected: ColorRGBA::grey_light(),
            li_unselected_bg: ColorRGBA::grey_dark(),
            li_disabled: ColorRGBA::grey_dark(),
            li_disabled_bg: ColorRGBA::grey_darker(),
        }
    }
}

/// Whether an unfocused list stays on screen or slides away.
#[derive(Clone, Copy, Debug, PartialEq, Eq, Structural, Default)]
pub enum ListPopoutBehavior {
    #[default]
    AlwaysVisible,
    HiddenWhenUnfocused,
}

/// Bit pattern of 1.0f32, the resting value of the popout animation.
pub const POPOUT_FULL_BITS: u32 = 0x3f80_0000;

/// Slide-away animation state. Speed and progress are bit patterns of
/// single-precision numbers; the widget logic never does arithmetic on
/// them, it only hands them to the renderer.
pub struct ListPopoutState {
    pub behavior: ListPopoutBehavior,
    pub speed: u32,
    pub delta: u32,
}

impl ListPopoutState {
    pub open spec fn default_spec() -> ListPopoutState {
        ListPopoutState {
            behavior: ListPopoutBehavior::AlwaysVisible,
            speed: POPOUT_FULL_BITS,
            delta: POPOUT_FULL_BITS,
        }
    }
}

impl Default for ListPopoutState {
    fn default() -> (s: Self)
        ensures
            s == ListPopoutState::default_spec(),
    {
        ListPopoutState {
            behavior: ListPopoutBehavior::AlwaysVisible,
            speed: POPOUT_FULL_BITS,
            delta: POPOUT_FULL_BITS,
        }
    }
}

/// Horizontal placement of a list: anchored left, centered, anchored
/// right, or suppressed entirely. On a sub-list the anchor is the opening
/// direction, and `Middle` replaces the parent rather than flanking it.
#[derive(Clone, Copy, Debug, PartialEq, Eq, Structural, Default)]
pub enum ListAnchor {
    #[default]
    Left,
    Middle,
    Right,
    Hidden,
}

/// Where the cursor starts when a list is re-entered.
#[derive(Clone, Copy, Debug, PartialEq, Eq, Structural, Default)]
pub enum ListResumeBehavior {
    #[default]
    First,
    LastUsed,
}

/// The kind of a list entry, which decides how activation is dispatched:
/// a plain text line, a toggle box, a numeric range adjuster, a push
/// button, a horizontal row of entries, or a nested sub-list.
#[derive(Clone, Copy, Debug, PartialEq, Eq, Structural, Default)]
pub enum ListItemType {
    #[default]
    Text,
    CheckBox,
    Slider,
    Button,
    RowGroup,
    SubList,
}

#[derive(Clone, Copy, Debug, PartialEq, Eq, Structural, Default)]
pub enum ListItemSelectable {
    #[default]
    Selectable,
    NotSelectable,
}

#[derive(Clone, Copy, Debug, PartialEq, Eq, Structural, Default)]
pub enum ListItemEditable {
    #[default]
    Editable,
    NotEditable,
}

/// What an activation or cancellation on the selected entry came to:
/// the interaction ran, it was cancelled, or the event did not apply to
/// that entry at all.
#[derive(Clone, Copy, Debug, PartialEq, Eq, Structural)]
pub enum OperatorResult {
    Done,
    Cancelled,
    Irrelevant,
}

/// One list entry: a label, its kind, its selection and editing flags,
/// and a non-owning handle to the value it displays.
pub struct ListItem {
    pub label: String,
    pub ty: ListItemType,
    pub selectable: ListItemSelectable,
    pub editable: ListItemEditable,
    pub value: Value,
}

/// A vertical list of entries with one selection cursor. Entry order is
/// significant: it is both the visual order and the navigation order.
pub struct ListInterface {
    pub style: ListStyle,
    pub anchor: ListAnchor,
    pub focused: bool,
    pub popout: ListPopoutState,
    pub resume: ListResumeBehavior,
    pub selected_index: i32,
    pub entries: Vec<ListItem>,
    pub render_group_index: usize,
}

/// The selection after one upward step: wrap from the first entry to the
/// last, otherwise move up one; an empty list and a cursor parked off the
/// list are left alone.
pub open spec fn nav_up(sel: int, len: int) -> int {
    if len == 0 {
        sel
    } else if sel == 0 {
        len - 1
    } else if sel > 0 {
        sel - 1
    } else {
        sel
    }
}

/// The selection after one downward step: wrap from the last entry to the
/// first, otherwise move down one (modulo the length); an empty list and
/// a cursor parked off the list are left alone.
pub open spec fn nav_down(sel: int, len: int) -> int {
    if len == 0 {
        sel
    } else if sel == len - 1 {
        0
    } else if sel >= 0 {
        (sel + 1) % len
    } else {
        sel
    }
}

/// The selection after `n` downward steps.
pub open spec fn nav_down_iter(sel: int, len: int, n: nat) -> int
    decreases n,
{
    if n == 0 {
        sel
    } else {
        nav_down(nav_down_iter(sel, len, (n - 1) as nat), len)
    }
}

impl ListInterface {
    /// A fresh, unfocused, left-anchored list with the stock style, no
    /// entries and the cursor on the first slot, drawing into the render
    /// group at `render_group_index`.
    pub fn default(render_group_index: usize) -> (li: Self)
        ensures
            li.style == ListStyle::default_spec(),
            li.anchor == ListAnchor::Left,
            !li.focused,
            li.popout == ListPopoutState::default_spec(),
            li.resume == ListResumeBehavior::First,
            li.selected_index == 0,
            li.entries@.len() == 0,
            li.render_group_index == render_group_index,
    {
        ListInterface {
            style: ListStyle::default(),
            anchor: ListAnchor::Left,
            focused: false,
            popout: ListPopoutState::default(),
            resume: ListResumeBehavior::First,
            selected_index: 0,
            entries: Vec::new(),
            render_group_index,
        }
    }

    /// Appends a selectable, non-editable text entry showing `value`
    /// under `label`.
    pub fn add_labeled_value(&mut self, label: &str, value: Value)
        ensures
            final(self).entries@.len() == old(self).entries@.len() + 1,
            forall|i: int|
                0 <= i < old(self).entries@.len() ==> final(self).entries@[i] == old(
                    self,
                ).entries@[i],
            final(self).entries@.last().label@ == label@,
            final(self).entries@.last().ty == ListItemType::Text,
            final(self).entries@.last().selectable == ListItemSelectable::Selectable,
            final(self).entries@.last().editable == ListItemEditable::NotEditable,
            final(self).entries@.last().value == value,
            final(self).style == old(self).style,
            final(self).anchor == old(self).anchor,
            final(self).focused == old(self).focused,
            final(self).resume == old(self).resume,
            final(self).selected_index == old(self).selected_index,
            final(self).render_group_index == old(self).render_group_index,
    {
        self.entries.push(
            ListItem {
                label: label.to_owned(),
                ty: ListItemType::Text,
                selectable: ListItemSelectable::Selectable,
                editable: ListItemEditable::NotEditable,
                value,
            },
        );
    }

    /// Appends an entry with every option spelled out.
    pub fn add_entry(
        &mut self,
        label: &str,
        ty: ListItemType,
        selectable: ListItemSelectable,
        editable: ListItemEditable,
        value: Value,
    )
        ensures
            final(self).entries@.len() == old(self).entries@.len() + 1,
            forall|i: int|
                0 <= i < old(self).entries@.len() ==> final(self).entries@[i] == old(
                    self,
                ).entries@[i],
            final(self).entries@.last().label@ == label@,
            final(self).entries@.last().ty == ty,
            final(self).entries@.last().selectable == selectable,
            final(self).entries@.last().editable == editable,
            final(self).entries@.last().value == value,
            final(self).style == old(self).style,
            final(self).anchor == old(self).anchor,
            final(self).focused == old(self).focused,
            final(self).resume == old(self).resume,
            final(self).selected_index == old(self).selected_index,
            final(self).render_group_index == old(self).render_group_index,
    {
        self.entries.push(ListItem { label: label.to_owned(), ty, selectable, editable, value });
    }

    /// One upward navigation step. Never faults: an empty list is a
    /// guarded no-op.
    pub fn navigate_up(&mut self)
        requires
            old(self).entries@.len() <= i32::MAX,
        ensures
            *final(self) == (ListInterface {
                selected_index: nav_up(
                    old(self).selected_index as int,
                    old(self).entries@.len() as int,
                ) as i32,
                ..*old(self)
            }),
    {
        let len = self.entries.len();
        if len == 0 {
            return ;
        }
        if self.selected_index == 0 {
            self.selected_index = (len - 1) as i32;
        } else if self.selected_index > 0 {
            self.selected_index = self.selected_index - 1;
        }
    }

    /// One downward navigation step. Never faults: an empty list is a
    /// guarded no-op.
    pub fn navigate_down(&mut self)
        requires
            old(self).entries@.len() <= i32::MAX,
        ensures
            *final(self) == (ListInterface {
                selected_index: nav_down(
                    old(self).selected_index as int,
                    old(self).entries@.len() as int,
                ) as i32,
                ..*old(self)
            }),
    {
        let len = self.entries.len();
        if len == 0 {
            return ;
        }
        if self.selected_index == (len - 1) as i32 {
            self.selected_index = 0;
        } else if self.selected_index >= 0 {
            let next: i64 = (self.selected_index as i64 + 1) % (len as i64);
            self.selected_index = next as i32;
        }
    }

    /// Dispatches an activation to the selected entry by its kind. The
    /// only kind with defined behavior is `CheckBox`, which toggles the
    /// bound boolean; a bound value of any other type is left alone, as a
    /// speculative downcast that missed. A dangling binding is the
    /// caller's setup error and is surfaced, not swallowed.
    pub fn activate_selected(&self, store: &mut ValueStore) -> (r: Result<
        OperatorResult,
        StoreError,
    >)
        requires
            old(store).wf(),
        ensures
            final(store).wf(),
            self.entries@.len() == 0 || !(0 <= self.selected_index < self.entries@.len()) ==> r
                == Ok::<_, StoreError>(OperatorResult::Irrelevant) && final(store)@ == old(store)@,
            0 <= self.selected_index < self.entries@.len() ==> {
                let item = self.entries@[self.selected_index as int];
                if item.ty == ListItemType::CheckBox {
                    if !old(store)@.contains_key(item.value.key@) {
                        r == Err::<OperatorResult, _>(StoreError::KeyNotFound) && final(store)@
                            == old(store)@
                    } else if !(old(store)@[item.value.key@] matches ListItemData::Bool(_)) {
                        r == Ok::<_, StoreError>(OperatorResult::Irrelevant) && final(store)@
                            == old(store)@
                    } else {
                        old(store)@[item.value.key@] matches ListItemData::Bool(b) && r == Ok::<
                            _,
                            StoreError,
                        >(OperatorResult::Done) && final(store)@ == old(store)@.insert(
                            item.value.key@,
                            ListItemData::Bool(!b),
                        )
                    }
                } else {
                    r == Ok::<_, StoreError>(OperatorResult::Irrelevant) && final(store)@ == old(
                        store,
                    )@
                }
            },
    {
        let len = self.entries.len();
        if len == 0 || self.selected_index < 0 || self.selected_index as usize >= len {
            return Ok(OperatorResult::Irrelevant);
        }
        let item = &self.entries[self.selected_index as usize];
        match item.ty {
            ListItemType::CheckBox => {
                let current = match item.value.load(store) {
                    Ok(v) => v.as_bool(),
                    Err(e) => {
                        return Err(e);
                    },
                };
                match current {
                    Some(b) => {
                        match item.value.replace(ListItemData::Bool(!b), store) {
                            Ok(()) => Ok(OperatorResult::Done),
                            Err(e) => Err(e),
                        }
                    },
                    None => Ok(OperatorResult::Irrelevant),
                }
            },
            _ => Ok(OperatorResult::Irrelevant),
        }
    }

    /// A cancellation on the selected entry: acknowledged when a cursor
    /// stands on an entry, irrelevant otherwise. No entry kind consumes
    /// it further.
    pub fn cancel_selected(&self) -> (r: OperatorResult)
        ensures
            r == if 0 <= self.selected_index < self.entries@.len() {
                OperatorResult::Cancelled
            } else {
                OperatorResult::Irrelevant
            },
    {
        let len = self.entries.len();
        if self.selected_index >= 0 && (self.selected_index as usize) < len {
            OperatorResult::Cancelled
        } else {
            OperatorResult::Irrelevant
        }
    }
}

/// Navigating an empty list, in either direction, leaves the selection
/// where it was; there is nothing to wrap around.
pub proof fn lemma_nav_empty_list(sel: int)
    ensures
        nav_up(sel, 0) == sel,
        nav_down(sel, 0) == sel,
{
}

/// From a valid selection on a non-empty list, one navigation step in
/// either direction lands on a valid selection again: navigation keeps
/// the cursor on the list.
pub proof fn lemma_nav_stays_valid(sel: int, len: int)
    requires
        0 <= sel < len,
    ensures
        0 <= nav_up(sel, len) < len,
        0 <= nav_down(sel, len) < len,
{
    if sel != len - 1 && sel >= 0 {
        vstd::arithmetic::div_mod::lemma_mod_bound(sel + 1, len);
    }
}

/// One step up followed by one step down is the identity on a valid
/// selection: the two wrap-arounds cancel.
pub proof fn lemma_nav_up_then_down(sel: int, len: int)
    requires
        0 <= sel < len,
    ensures
        nav_down(nav_up(sel, len), len) == sel,
{
    if sel == 0 {
    } else {
        assert(nav_up(sel, len) == sel - 1);
        if sel - 1 != len - 1 {
            assert(sel % len == sel) by {
                vstd::arithmetic::div_mod::lemma_small_mod(sel as nat, len as nat);
            }
        }
    }
}

/// After `n` downward steps from a valid selection the cursor stands at
/// `(sel + n) % len`: downward navigation is stepping through the cyclic
/// group of the entry indices.
pub proof fn lemma_nav_down_iter_mod(sel: int, len: int, n: nat)
    requires
        0 <= sel < len,
    ensures
        nav_down_iter(sel, len, n) == (sel + n) % len,
    decreases n,
{
    if n == 0 {
        vstd::arithmetic::div_mod::lemma_small_mod(sel as nat, len as nat);
    } else {
        lemma_nav_down_iter_mod(sel, len, (n - 1) as nat);
        let prev = (sel + n - 1) % len;
        vstd::arithmetic::div_mod::lemma_mod_bound(sel + n - 1, len);
        if prev == len - 1 {
            assert((sel + n) % len == 0) by {
                vstd::arithmetic::div_mod::lemma_add_mod_noop(sel + n - 1, 1, len);
                if len == 1 {
                    vstd::arithmetic::div_mod::lemma_mod_multiples_basic(sel + n, 1);
                } else {
                    vstd::arithmetic::div_mod::lemma_small_mod(1nat, len as nat);
                    vstd::arithmetic::div_mod::lemma_mod_self_0(len);
                }
            }
        } else {
            assert(0 <= prev < len - 1);
            assert(nav_down(prev, len) == (prev + 1) % len);
            assert((prev + 1) % len == (sel + n) % len) by {
                vstd::arithmetic::div_mod::lemma_add_mod_noop(sel + n - 1, 1, len);
                vstd::arithmetic::div_mod::lemma_small_mod(1nat, len as nat);
                vstd::arithmetic::div_mod::lemma_small_mod((prev + 1) as nat, len as nat);
            }
        }
    }
}

/// As many downward steps as there are entries bring the selection back
/// to where it started: downward navigation has cycle length `len`.
pub proof fn lemma_nav_down_full_cycle(sel: int, len: int)
    requires
        0 <= sel < len,
    ensures
        nav_down_iter(sel, len, len as nat) == sel,
{
    lemma_nav_down_iter_mod(sel, len, len as nat);
    vstd::arithmetic::div_mod::lemma_mod_add_multiples_vanish(sel, len);
    vstd::arithmetic::div_mod::lemma_small_mod(sel as nat, len as nat);
}

} // verus!
