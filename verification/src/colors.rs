//! A named set of colour overrides: the slot catalog, access to a slot by
//! its name, and the stylesheet text that a set stands for.

use vstd::prelude::*;
use vstd::string::StringExecFns;

use crate::error::ThemeError;
use crate::text::str_eq;

verus! {

/// Number of slots in the catalog.
pub const SLOT_COUNT: usize = 31;

/// Extension of the files that hold stored records.
pub const RECORD_EXTENSION: &'static str = ".ron";

/// A named palette of optional colours, one per slot of the catalog. A slot
/// holds a CSS colour as text, or is unset.
#[derive(Debug, Hash)]
pub struct ColorOverrides {
    /// Name of the set; the stored record is keyed by it.
    pub name: String,
    // Accent: suggested buttons, links, selections
    pub accent_bg_color: Option<String>,
    pub accent_fg_color: Option<String>,
    pub accent_color: Option<String>,
    // Destructive-action buttons
    pub destructive_bg_color: Option<String>,
    pub destructive_fg_color: Option<String>,
    pub destructive_color: Option<String>,
    // Level bars, entries, labels and info bars
    pub success_color: Option<String>,
    pub success_bg_color: Option<String>,
    pub success_fg_color: Option<String>,
    pub warning_color: Option<String>,
    pub warning_bg_color: Option<String>,
    pub warning_fg_color: Option<String>,
    pub error_color: Option<String>,
    pub error_bg_color: Option<String>,
    pub error_fg_color: Option<String>,
    // Main window background
    pub window_bg_color: Option<String>,
    pub window_fg_color: Option<String>,
    // Content areas, such as text views
    pub view_bg_color: Option<String>,
    pub view_fg_color: Option<String>,
    // Shadows and scroll undershoots
    pub shade_color: Option<String>,
    // Header bar, search bar, tab bar
    pub headerbar_bg_color: Option<String>,
    pub headerbar_fg_color: Option<String>,
    pub headerbar_border_color: Option<String>,
    pub headerbar_backdrop_color: Option<String>,
    pub headerbar_shade_color: Option<String>,
    // Cards, boxed lists
    pub card_bg_color: Option<String>,
    pub card_fg_color: Option<String>,
    pub card_shade_color: Option<String>,
    // Popovers
    pub popover_bg_color: Option<String>,
    pub popover_fg_color: Option<String>,
    // Scrollbars
    pub scrollbar_outline_color: Option<String>,
}

/// The mathematical value of a [`ColorOverrides`]: its name and, in catalog
/// order, what each slot holds.
pub struct ColorOverridesView {
    pub name: Seq<char>,
    pub slots: Seq<Option<Seq<char>>>,
}

/// The text that an optional string holds.
pub open spec fn opt_text(value: Option<String>) -> Option<Seq<char>> {
    match value {
        Some(text) => Some(text@),
        None => None,
    }
}

/// The catalog: every slot name, in the order in which the stylesheet lists
/// the slots.
pub open spec fn slot_names() -> Seq<Seq<char>> {
    seq![
        "accent_bg_color"@,
        "accent_fg_color"@,
        "accent_color"@,
        "destructive_bg_color"@,
        "destructive_fg_color"@,
        "destructive_color"@,
        "success_color"@,
        "success_bg_color"@,
        "success_fg_color"@,
        "warning_color"@,
        "warning_bg_color"@,
        "warning_fg_color"@,
        "error_color"@,
        "error_bg_color"@,
        "error_fg_color"@,
        "window_bg_color"@,
        "window_fg_color"@,
        "view_bg_color"@,
        "view_fg_color"@,
        "shade_color"@,
        "headerbar_bg_color"@,
        "headerbar_fg_color"@,
        "headerbar_border_color"@,
        "headerbar_backdrop_color"@,
        "headerbar_shade_color"@,
        "card_bg_color"@,
        "card_fg_color"@,
        "card_shade_color"@,
        "popover_bg_color"@,
        "popover_fg_color"@,
        "scrollbar_outline_color"@,
    ]
}

/// The position in the catalog of the slot that `key` names, if it names one.
pub open spec fn slot_of(key: Seq<char>) -> Option<int> {
    slot_names().index_of_first(key)
}

/// The stylesheet rule that gives the slot `name` the colour `value`.
pub open spec fn define_color(name: Seq<char>, value: Seq<char>) -> Seq<char> {
    "@define-color "@ + name + " "@ + value + ";\n"@
}

impl View for ColorOverrides {
    type V = ColorOverridesView;

    open spec fn view(&self) -> ColorOverridesView {
        ColorOverridesView {
            name: self.name@,
            slots: Seq::new(SLOT_COUNT as nat, |index: int| opt_text(self.spec_slot(index))),
        }
    }
}

impl ColorOverridesView {
    /// The value without a name and with every slot unset.
    pub open spec fn empty() -> ColorOverridesView {
        ColorOverridesView {
            name: Seq::empty(),
            slots: Seq::new(SLOT_COUNT as nat, |index: int| None),
        }
    }

    /// Whether the value has one entry per slot of the catalog.
    pub open spec fn wf(self) -> bool {
        self.slots.len() == SLOT_COUNT
    }

    /// What the slot named `key` holds; nothing for a name outside the catalog.
    pub open spec fn get(self, key: Seq<char>) -> Option<Seq<char>> {
        match slot_of(key) {
            Some(index) => self.slots[index],
            None => None,
        }
    }

    /// The value with the slot at `index` replaced.
    pub open spec fn with_slot(self, index: int, value: Option<Seq<char>>) -> ColorOverridesView {
        ColorOverridesView { name: self.name, slots: self.slots.update(index, value) }
    }

    /// The value after the slot named `key` is given `value`; unchanged for
    /// a name outside the catalog.
    pub open spec fn set(self, key: Seq<char>, value: Option<Seq<char>>) -> ColorOverridesView {
        match slot_of(key) {
            Some(index) => self.with_slot(index, value),
            None => self,
        }
    }

    /// What the slot at `index` adds to the stylesheet: one rule when it is
    /// set, nothing when it is not.
    pub open spec fn slot_rule(self, index: int) -> Seq<char> {
        match self.slots[index] {
            Some(value) => define_color(slot_names()[index], value),
            None => Seq::empty(),
        }
    }

    /// The rules of the first `count` slots of the catalog, in catalog order.
    pub open spec fn stylesheet_upto(self, count: int) -> Seq<char>
        decreases count,
    {
        if count <= 0 {
            Seq::empty()
        } else {
            self.stylesheet_upto(count - 1) + self.slot_rule(count - 1)
        }
    }

    /// The stylesheet text of the set: the rules of all its slots.
    pub open spec fn stylesheet(self) -> Seq<char> {
        self.stylesheet_upto(SLOT_COUNT as int)
    }

    /// The variant of the set for high-contrast mode: for now the set itself.
    pub open spec fn high_contrast(self) -> ColorOverridesView {
        self
    }

    /// The positions of the slots that are set among the first `count` of
    /// the catalog, in catalog order.
    pub open spec fn set_slots_upto(self, count: nat) -> Seq<int> {
        Seq::new(count, |index: int| index).filter(|index: int| self.slots[index] is Some)
    }

    /// The positions of the slots that are set, in catalog order.
    pub open spec fn set_slots(self) -> Seq<int> {
        self.set_slots_upto(SLOT_COUNT as nat)
    }

    /// The rules of the stylesheet: one for each slot that is set, in
    /// catalog order.
    pub open spec fn rules(self) -> Seq<Seq<char>> {
        self.set_slots().map_values(|index: int| self.slot_rule(index))
    }
}

/// The name of the file that holds the record called `name`.
pub fn record_file(name: &str) -> (file: String)
    ensures
        file@ == name@ + RECORD_EXTENSION@,
{
    let mut file = String::from_str(name);
    file.append(RECORD_EXTENSION);
    file
}

/// The name of the slot at position `index` of the catalog.
pub fn slot_name(index: usize) -> (name: &'static str)
    requires
        index < SLOT_COUNT,
    ensures
        name@ == slot_names()[index as int],
{
    match index {
        0 => "accent_bg_color",
        1 => "accent_fg_color",
        2 => "accent_color",
        3 => "destructive_bg_color",
        4 => "destructive_fg_color",
        5 => "destructive_color",
        6 => "success_color",
        7 => "success_bg_color",
        8 => "success_fg_color",
        9 => "warning_color",
        10 => "warning_bg_color",
        11 => "warning_fg_color",
        12 => "error_color",
        13 => "error_bg_color",
        14 => "error_fg_color",
        15 => "window_bg_color",
        16 => "window_fg_color",
        17 => "view_bg_color",
        18 => "view_fg_color",
        19 => "shade_color",
        20 => "headerbar_bg_color",
        21 => "headerbar_fg_color",
        22 => "headerbar_border_color",
        23 => "headerbar_backdrop_color",
        24 => "headerbar_shade_color",
        25 => "card_bg_color",
        26 => "card_fg_color",
        27 => "card_shade_color",
        28 => "popover_bg_color",
        29 => "popover_fg_color",
        _ => "scrollbar_outline_color",
    }
}

/// Finds the slot that `key` names.
pub fn slot_index(key: &str) -> (found: Option<usize>)
    ensures
        match found {
            Some(index) => index < SLOT_COUNT && slot_of(key@) == Some(index as int),
            None => slot_of(key@) is None,
        },
{
    let mut index: usize = 0;
    while index < SLOT_COUNT
        invariant
            index <= SLOT_COUNT,
            slot_names().len() == SLOT_COUNT,
            forall|j: int| 0 <= j < index ==> slot_names()[j] != key@,
        decreases SLOT_COUNT - index,
    {
        if str_eq(key, slot_name(index)) {
            proof {
                slot_names().index_of_first_ensures(key@);
            }
            return Some(index);
        }
        index += 1;
    }
    proof {
        slot_names().index_of_first_ensures(key@);
    }
    None
}

/// Whether two slots hold the same colour text, or both hold nothing.
pub fn same_color(a: &Option<String>, b: &Option<String>) -> (same: bool)
    ensures
        same == (opt_text(*a) == opt_text(*b)),
{
    match (a, b) {
        (Some(x), Some(y)) => *x == *y,
        (None, None) => true,
        _ => false,
    }
}

/// A copy of what a slot holds.
pub fn copy_color(held: &Option<String>) -> (copy: Option<String>)
    ensures
        copy == *held,
{
    match held {
        Some(color) => Some(color.clone()),
        None => None,
    }
}

impl ColorOverrides {
    /// What the slot at position `index` of the catalog holds.
    pub open spec fn spec_slot(&self, index: int) -> Option<String> {
        if index == 0 {
            self.accent_bg_color
        } else if index == 1 {
            self.accent_fg_color
        } else if index == 2 {
            self.accent_color
        } else if index == 3 {
            self.destructive_bg_color
        } else if index == 4 {
            self.destructive_fg_color
        } else if index == 5 {
            self.destructive_color
        } else if index == 6 {
            self.success_color
        } else if index == 7 {
            self.success_bg_color
        } else if index == 8 {
            self.success_fg_color
        } else if index == 9 {
            self.warning_color
        } else if index == 10 {
            self.warning_bg_color
        } else if index == 11 {
            self.warning_fg_color
        } else if index == 12 {
            self.error_color
        } else if index == 13 {
            self.error_bg_color
        } else if index == 14 {
            self.error_fg_color
        } else if index == 15 {
            self.window_bg_color
        } else if index == 16 {
            self.window_fg_color
        } else if index == 17 {
            self.view_bg_color
        } else if index == 18 {
            self.view_fg_color
        } else if index == 19 {
            self.shade_color
        } else if index == 20 {
            self.headerbar_bg_color
        } else if index == 21 {
            self.headerbar_fg_color
        } else if index == 22 {
            self.headerbar_border_color
        } else if index == 23 {
            self.headerbar_backdrop_color
        } else if index == 24 {
            self.headerbar_shade_color
        } else if index == 25 {
            self.card_bg_color
        } else if index == 26 {
            self.card_fg_color
        } else if index == 27 {
            self.card_shade_color
        } else if index == 28 {
            self.popover_bg_color
        } else if index == 29 {
            self.popover_fg_color
        } else {
            self.scrollbar_outline_color
        }
    }

    /// The slot at position `index` of the catalog.
    pub fn slot(&self, index: usize) -> (held: &Option<String>)
        requires
            index < SLOT_COUNT,
        ensures
            *held == self.spec_slot(index as int),
    {
        match index {
            0 => &self.accent_bg_color,
            1 => &self.accent_fg_color,
            2 => &self.accent_color,
            3 => &self.destructive_bg_color,
            4 => &self.destructive_fg_color,
            5 => &self.destructive_color,
            6 => &self.success_color,
            7 => &self.success_bg_color,
            8 => &self.success_fg_color,
            9 => &self.warning_color,
            10 => &self.warning_bg_color,
            11 => &self.warning_fg_color,
            12 => &self.error_color,
            13 => &self.error_bg_color,
            14 => &self.error_fg_color,
            15 => &self.window_bg_color,
            16 => &self.window_fg_color,
            17 => &self.view_bg_color,
            18 => &self.view_fg_color,
            19 => &self.shade_color,
            20 => &self.headerbar_bg_color,
            21 => &self.headerbar_fg_color,
            22 => &self.headerbar_border_color,
            23 => &self.headerbar_backdrop_color,
            24 => &self.headerbar_shade_color,
            25 => &self.card_bg_color,
            26 => &self.card_fg_color,
            27 => &self.card_shade_color,
            28 => &self.popover_bg_color,
            29 => &self.popover_fg_color,
            _ => &self.scrollbar_outline_color,
        }
    }

    /// Replaces what the slot at position `index` of the catalog holds.
    pub fn set_slot(&mut self, index: usize, value: Option<String>)
        requires
            index < SLOT_COUNT,
        ensures
            final(self)@ == old(self)@.with_slot(index as int, opt_text(value)),
            final(self).spec_slot(index as int) == value,
    {
        match index {
            0 => self.accent_bg_color = value,
            1 => self.accent_fg_color = value,
            2 => self.accent_color = value,
            3 => self.destructive_bg_color = value,
            4 => self.destructive_fg_color = value,
            5 => self.destructive_color = value,
            6 => self.success_color = value,
            7 => self.success_bg_color = value,
            8 => self.success_fg_color = value,
            9 => self.warning_color = value,
            10 => self.warning_bg_color = value,
            11 => self.warning_fg_color = value,
            12 => self.error_color = value,
            13 => self.error_bg_color = value,
            14 => self.error_fg_color = value,
            15 => self.window_bg_color = value,
            16 => self.window_fg_color = value,
            17 => self.view_bg_color = value,
            18 => self.view_fg_color = value,
            19 => self.shade_color = value,
            20 => self.headerbar_bg_color = value,
            21 => self.headerbar_fg_color = value,
            22 => self.headerbar_border_color = value,
            23 => self.headerbar_backdrop_color = value,
            24 => self.headerbar_shade_color = value,
            25 => self.card_bg_color = value,
            26 => self.card_fg_color = value,
            27 => self.card_shade_color = value,
            28 => self.popover_bg_color = value,
            29 => self.popover_fg_color = value,
            _ => self.scrollbar_outline_color = value,
        }
        assert(self@.slots =~= old(self)@.slots.update(index as int, opt_text(value)));
    }

    /// The name of the file that holds the stored record of the set. It
    /// depends on the name of the set alone.
    pub fn file_name(&self) -> (file: String)
        ensures
            file@ == self@.name + RECORD_EXTENSION@,
    {
        record_file(self.name.as_str())
    }

    /// Reads the slot named `key`. A name outside the catalog reads as unset.
    pub fn get_key(&self, key: &str) -> (value: Option<String>)
        ensures
            opt_text(value) == self@.get(key@),
    {
        match slot_index(key) {
            Some(index) => copy_color(self.slot(index)),
            None => None,
        }
    }

    /// Gives the slot named `key` a colour, or clears it with `None`. Fails
    /// with `InvalidSlot`, and changes nothing, for a name outside the
    /// catalog.
    pub fn set_key(&mut self, key: &str, value: Option<String>) -> (outcome: Result<(), ThemeError>)
        ensures
            outcome is Ok <==> slot_of(key@) is Some,
            outcome is Err ==> outcome == Err::<(), ThemeError>(ThemeError::InvalidSlot) && *final(self)
                == *old(self),
            final(self)@ == old(self)@.set(key@, opt_text(value)),
    {
        match slot_index(key) {
            Some(index) => {
                self.set_slot(index, value);
                Ok(())
            },
            None => Err(ThemeError::InvalidSlot),
        }
    }

    /// Renders the set as stylesheet text: for each slot that is set, in
    /// catalog order, the line `@define-color <slot> <value>;`. Unset slots
    /// leave no trace.
    pub fn as_gtk_css(&self) -> (css: String)
        ensures
            css@ == self@.stylesheet(),
    {
        let mut css = String::new();
        let mut index: usize = 0;
        while index < SLOT_COUNT
            invariant
                index <= SLOT_COUNT,
                css@ == self@.stylesheet_upto(index as int),
            decreases SLOT_COUNT - index,
        {
            let ghost before = css@;
            match self.slot(index) {
                Some(value) => {
                    css.append("@define-color ");
                    css.append(slot_name(index));
                    css.append(" ");
                    css.append(value.as_str());
                    css.append(";\n");
                },
                None => {
                },
            }
            index += 1;
        }
        css
    }

    /// The variant of the set for high-contrast mode. No slot is changed, so
    /// no pair of foreground and background loses contrast.
    pub fn to_high_contrast(self) -> (adjusted: Self)
        ensures
            adjusted@ == self@.high_contrast(),
            adjusted == self,
    {
        self
    }

    /// The value of the built-in light baseline.
    pub open spec fn light_default_view() -> ColorOverridesView {
        ColorOverridesView {
            name: "light_default"@,
            slots: seq![
                Some("#3584e4"@),
                Some("#ffffff"@),
                Some("#1c71d8"@),
                Some("#e01b24"@),
                Some("#ffffff"@),
                Some("#c01c28"@),
                Some("#26a269"@),
                Some("#2ec27e"@),
                Some("#ffffff"@),
                Some("#ae7b03"@),
                Some("#e5a50a"@),
                Some("rgba(0, 0, 0, 0.8)"@),
                Some("#c01c28"@),
                Some("#e01b24"@),
                Some("#ffffff"@),
                Some("#fafafa"@),
                Some("rgba(0, 0, 0, 0.8)"@),
                Some("#ffffff"@),
                Some("#000000"@),
                Some("rgba(0, 0, 0, 0.07)"@),
                Some("#ebebeb"@),
                Some("rgba(0, 0, 0, 0.8)"@),
                Some("rgba(0, 0, 0, 0.8)"@),
                Some("#fafafa"@),
                Some("rgba(0, 0, 0, 0.07)"@),
                Some("#ffffff"@),
                Some("rgba(0, 0, 0, 0.8)"@),
                Some("rgba(0, 0, 0, 0.07)"@),
                Some("#ffffff"@),
                Some("rgba(0, 0, 0, 0.8)"@),
                Some("#ffffff"@),
            ],
        }
    }

    /// The value of the built-in dark baseline.
    pub open spec fn dark_default_view() -> ColorOverridesView {
        ColorOverridesView {
            name: "dark_default"@,
            slots: seq![
                Some("#3584e4"@),
                Some("#ffffff"@),
                Some("#78aeed"@),
                Some("#c01c28"@),
                Some("#ffffff"@),
                Some("#ff7b63"@),
                Some("#8ff0a4"@),
                Some("#26a269"@),
                Some("#ffffff"@),
                Some("#f8e45c"@),
                Some("#cd9309"@),
                Some("rgba(0, 0, 0, 0.8)"@),
                Some("#ff7b63"@),
                Some("#c01c28"@),
                Some("#ffffff"@),
                Some("#242424"@),
                Some("#ffffff"@),
                Some("#1e1e1e"@),
                Some("#ffffff"@),
                Some("rgba(0, 0, 0, 0.36)"@),
                Some("#303030"@),
                Some("#ffffff"@),
                Some("#ffffff"@),
                Some("#242424"@),
                Some("rgba(0, 0, 0, 0.36)"@),
                Some("rgba(255, 255, 255, 0.08)"@),
                Some("#ffffff"@),
                Some("rgba(0, 0, 0, 0.36)"@),
                Some("#383838"@),
                Some("#ffffff"@),
                Some("rgba(0, 0, 0, 0.5)"@),
            ],
        }
    }

    /// The built-in baseline for light mode: the toolkit's stock colour for
    /// every slot.
    pub fn light_default() -> (base: Self)
        ensures
            base@ == Self::light_default_view(),
    {
        let base = ColorOverrides {
            name: String::from_str("light_default"),
            accent_bg_color: Some(String::from_str("#3584e4")),
            accent_fg_color: Some(String::from_str("#ffffff")),
            accent_color: Some(String::from_str("#1c71d8")),
            destructive_bg_color: Some(String::from_str("#e01b24")),
            destructive_fg_color: Some(String::from_str("#ffffff")),
            destructive_color: Some(String::from_str("#c01c28")),
            success_color: Some(String::from_str("#26a269")),
            success_bg_color: Some(String::from_str("#2ec27e")),
            success_fg_color: Some(String::from_str("#ffffff")),
            warning_color: Some(String::from_str("#ae7b03")),
            warning_bg_color: Some(String::from_str("#e5a50a")),
            warning_fg_color: Some(String::from_str("rgba(0, 0, 0, 0.8)")),
            error_color: Some(String::from_str("#c01c28")),
            error_bg_color: Some(String::from_str("#e01b24")),
            error_fg_color: Some(String::from_str("#ffffff")),
            window_bg_color: Some(String::from_str("#fafafa")),
            window_fg_color: Some(String::from_str("rgba(0, 0, 0, 0.8)")),
            view_bg_color: Some(String::from_str("#ffffff")),
            view_fg_color: Some(String::from_str("#000000")),
            shade_color: Some(String::from_str("rgba(0, 0, 0, 0.07)")),
            headerbar_bg_color: Some(String::from_str("#ebebeb")),
            headerbar_fg_color: Some(String::from_str("rgba(0, 0, 0, 0.8)")),
            headerbar_border_color: Some(String::from_str("rgba(0, 0, 0, 0.8)")),
            headerbar_backdrop_color: Some(String::from_str("#fafafa")),
            headerbar_shade_color: Some(String::from_str("rgba(0, 0, 0, 0.07)")),
            card_bg_color: Some(String::from_str("#ffffff")),
            card_fg_color: Some(String::from_str("rgba(0, 0, 0, 0.8)")),
            card_shade_color: Some(String::from_str("rgba(0, 0, 0, 0.07)")),
            popover_bg_color: Some(String::from_str("#ffffff")),
            popover_fg_color: Some(String::from_str("rgba(0, 0, 0, 0.8)")),
            scrollbar_outline_color: Some(String::from_str("#ffffff")),
        };
        assert(base@.slots =~= Self::light_default_view().slots);
        base
    }

    /// The built-in baseline for dark mode: the toolkit's stock colour for
    /// every slot.
    pub fn dark_default() -> (base: Self)
        ensures
            base@ == Self::dark_default_view(),
    {
        let base = ColorOverrides {
            name: String::from_str("dark_default"),
            accent_bg_color: Some(String::from_str("#3584e4")),
            accent_fg_color: Some(String::from_str("#ffffff")),
            accent_color: Some(String::from_str("#78aeed")),
            destructive_bg_color: Some(String::from_str("#c01c28")),
            destructive_fg_color: Some(String::from_str("#ffffff")),
            destructive_color: Some(String::from_str("#ff7b63")),
            success_color: Some(String::from_str("#8ff0a4")),
            success_bg_color: Some(String::from_str("#26a269")),
            success_fg_color: Some(String::from_str("#ffffff")),
            warning_color: Some(String::from_str("#f8e45c")),
            warning_bg_color: Some(String::from_str("#cd9309")),
            warning_fg_color: Some(String::from_str("rgba(0, 0, 0, 0.8)")),
            error_color: Some(String::from_str("#ff7b63")),
            error_bg_color: Some(String::from_str("#c01c28")),
            error_fg_color: Some(String::from_str("#ffffff")),
            window_bg_color: Some(String::from_str("#242424")),
            window_fg_color: Some(String::from_str("#ffffff")),
            view_bg_color: Some(String::from_str("#1e1e1e")),
            view_fg_color: Some(String::from_str("#ffffff")),
            shade_color: Some(String::from_str("rgba(0, 0, 0, 0.36)")),
            headerbar_bg_color: Some(String::from_str("#303030")),
            headerbar_fg_color: Some(String::from_str("#ffffff")),
            headerbar_border_color: Some(String::from_str("#ffffff")),
            headerbar_backdrop_color: Some(String::from_str("#242424")),
            headerbar_shade_color: Some(String::from_str("rgba(0, 0, 0, 0.36)")),
            card_bg_color: Some(String::from_str("rgba(255, 255, 255, 0.08)")),
            card_fg_color: Some(String::from_str("#ffffff")),
            card_shade_color: Some(String::from_str("rgba(0, 0, 0, 0.36)")),
            popover_bg_color: Some(String::from_str("#383838")),
            popover_fg_color: Some(String::from_str("#ffffff")),
            scrollbar_outline_color: Some(String::from_str("rgba(0, 0, 0, 0.5)")),
        };
        assert(base@.slots =~= Self::dark_default_view().slots);
        base
    }
}

impl Clone for ColorOverrides {
    fn clone(&self) -> (copy: Self)
        ensures
            copy == *self,
    {
        ColorOverrides {
            name: self.name.clone(),
            accent_bg_color: copy_color(&self.accent_bg_color),
            accent_fg_color: copy_color(&self.accent_fg_color),
            accent_color: copy_color(&self.accent_color),
            destructive_bg_color: copy_color(&self.destructive_bg_color),
            destructive_fg_color: copy_color(&self.destructive_fg_color),
            destructive_color: copy_color(&self.destructive_color),
            success_color: copy_color(&self.success_color),
            success_bg_color: copy_color(&self.success_bg_color),
            success_fg_color: copy_color(&self.success_fg_color),
            warning_color: copy_color(&self.warning_color),
            warning_bg_color: copy_color(&self.warning_bg_color),
            warning_fg_color: copy_color(&self.warning_fg_color),
            error_color: copy_color(&self.error_color),
            error_bg_color: copy_color(&self.error_bg_color),
            error_fg_color: copy_color(&self.error_fg_color),
            window_bg_color: copy_color(&self.window_bg_color),
            window_fg_color: copy_color(&self.window_fg_color),
            view_bg_color: copy_color(&self.view_bg_color),
            view_fg_color: copy_color(&self.view_fg_color),
            shade_color: copy_color(&self.shade_color),
            headerbar_bg_color: copy_color(&self.headerbar_bg_color),
            headerbar_fg_color: copy_color(&self.headerbar_fg_color),
            headerbar_border_color: copy_color(&self.headerbar_border_color),
            headerbar_backdrop_color: copy_color(&self.headerbar_backdrop_color),
            headerbar_shade_color: copy_color(&self.headerbar_shade_color),
            card_bg_color: copy_color(&self.card_bg_color),
            card_fg_color: copy_color(&self.card_fg_color),
            card_shade_color: copy_color(&self.card_shade_color),
            popover_bg_color: copy_color(&self.popover_bg_color),
            popover_fg_color: copy_color(&self.popover_fg_color),
            scrollbar_outline_color: copy_color(&self.scrollbar_outline_color),
        }
    }
}

impl PartialEq for ColorOverrides {
    /// Two sets are equal when their names and all their slots are.
    fn eq(&self, other: &Self) -> (same: bool) {
        if !(self.name == other.name) {
            return false;
        }
        let mut index: usize = 0;
        while index < SLOT_COUNT
            invariant
                index <= SLOT_COUNT,
                self.name@ == other.name@,
                forall|j: int| 0 <= j < index ==> self@.slots[j] == other@.slots[j],
            decreases SLOT_COUNT - index,
        {
            if !same_color(self.slot(index), other.slot(index)) {
                assert(self@.slots[index as int] != other@.slots[index as int]);
                return false;
            }
            index += 1;
        }
        assert(self@.slots =~= other@.slots);
        true
    }
}

impl vstd::std_specs::cmp::PartialEqSpecImpl for ColorOverrides {
    open spec fn obeys_eq_spec() -> bool {
        true
    }

    open spec fn eq_spec(&self, other: &Self) -> bool {
        self@ == other@
    }
}

impl Eq for ColorOverrides {

}

impl Default for ColorOverrides {
    /// The set without a name and with every slot unset.
    fn default() -> (empty: Self)
        ensures
            empty@ == ColorOverridesView::empty(),
    {
        let empty = ColorOverrides {
            name: String::new(),
            accent_bg_color: None,
            accent_fg_color: None,
            accent_color: None,
            destructive_bg_color: None,
            destructive_fg_color: None,
            destructive_color: None,
            success_color: None,
            success_bg_color: None,
            success_fg_color: None,
            warning_color: None,
            warning_bg_color: None,
            warning_fg_color: None,
            error_color: None,
            error_bg_color: None,
            error_fg_color: None,
            window_bg_color: None,
            window_fg_color: None,
            view_bg_color: None,
            view_fg_color: None,
            shade_color: None,
            headerbar_bg_color: None,
            headerbar_fg_color: None,
            headerbar_border_color: None,
            headerbar_backdrop_color: None,
            headerbar_shade_color: None,
            card_bg_color: None,
            card_fg_color: None,
            card_shade_color: None,
            popover_bg_color: None,
            popover_fg_color: None,
            scrollbar_outline_color: None,
        };
        assert(empty@.slots =~= ColorOverridesView::empty().slots);
        empty
    }
}

/// What tells the names of the catalog apart: the length, the first
/// character, and the character eight places before the end.
spec fn name_mark(name: Seq<char>) -> (nat, char, char) {
    (name.len(), name[0], name[name.len() - 8])
}

/// No two slots of the catalog share a name.
pub proof fn lemma_slot_names_distinct()
    ensures
        slot_names().len() == SLOT_COUNT,
        forall|i: int, j: int|
            0 <= i < j < SLOT_COUNT ==> #[trigger] slot_names()[i] != #[trigger] slot_names()[j],
{
    reveal_strlit("accent_bg_color");
    reveal_strlit("accent_fg_color");
    reveal_strlit("accent_color");
    reveal_strlit("destructive_bg_color");
    reveal_strlit("destructive_fg_color");
    reveal_strlit("destructive_color");
    reveal_strlit("success_color");
    reveal_strlit("success_bg_color");
    reveal_strlit("success_fg_color");
    reveal_strlit("warning_color");
    reveal_strlit("warning_bg_color");
    reveal_strlit("warning_fg_color");
    reveal_strlit("error_color");
    reveal_strlit("error_bg_color");
    reveal_strlit("error_fg_color");
    reveal_strlit("window_bg_color");
    reveal_strlit("window_fg_color");
    reveal_strlit("view_bg_color");
    reveal_strlit("view_fg_color");
    reveal_strlit("shade_color");
    reveal_strlit("headerbar_bg_color");
    reveal_strlit("headerbar_fg_color");
    reveal_strlit("headerbar_border_color");
    reveal_strlit("headerbar_backdrop_color");
    reveal_strlit("headerbar_shade_color");
    reveal_strlit("card_bg_color");
    reveal_strlit("card_fg_color");
    reveal_strlit("card_shade_color");
    reveal_strlit("popover_bg_color");
    reveal_strlit("popover_fg_color");
    reveal_strlit("scrollbar_outline_color");
    assert forall|i: int, j: int| 0 <= i < j < SLOT_COUNT implies #[trigger] slot_names()[i]
        != #[trigger] slot_names()[j] by {
        assert(name_mark(slot_names()[i]) != name_mark(slot_names()[j]));
    }
}

/// Each name of the catalog names the slot at its own position.
pub proof fn lemma_slot_of_name(index: int)
    requires
        0 <= index < SLOT_COUNT,
    ensures
        slot_of(slot_names()[index]) == Some(index),
{
    lemma_slot_names_distinct();
    slot_names().index_of_first_ensures(slot_names()[index]);
}

/// A slot that was given a value reads back that value, be it a colour or
/// nothing, and no slot of another name reads differently than before.
pub proof fn lemma_set_then_get(
    colors: ColorOverridesView,
    key: Seq<char>,
    value: Option<Seq<char>>,
    other: Seq<char>,
)
    requires
        colors.wf(),
        slot_names().contains(key),
    ensures
        colors.set(key, value).wf(),
        colors.set(key, value).get(key) == value,
        other != key ==> colors.set(key, value).get(other) == colors.get(other),
{
    slot_names().index_of_first_ensures(key);
    slot_names().index_of_first_ensures(other);
}

/// A name outside the catalog names no slot: it reads as unset, and
/// setting it changes nothing.
pub proof fn lemma_unknown_slot(colors: ColorOverridesView, key: Seq<char>, value: Option<Seq<char>>)
    requires
        !slot_names().contains(key),
    ensures
        slot_of(key) is None,
        colors.get(key) is None,
        colors.set(key, value) == colors,
{
    slot_names().index_of_first_ensures(key);
}

/// The stylesheet is a function of the value: equal sets have the same
/// stylesheet text.
pub proof fn lemma_stylesheet_deterministic(first: ColorOverrides, second: ColorOverrides)
    requires
        first@ == second@,
    ensures
        first@.stylesheet() == second@.stylesheet(),
{
}

/// The rules of the first `count` slots are the rules of those among them
/// that are set.
proof fn lemma_stylesheet_upto(colors: ColorOverridesView, count: nat)
    ensures
        colors.stylesheet_upto(count as int) == colors.set_slots_upto(count).map_values(
            |index: int| colors.slot_rule(index),
        ).flatten(),
    decreases count,
{
    reveal(Seq::filter);
    let rule = |index: int| colors.slot_rule(index);
    let set = |index: int| colors.slots[index] is Some;
    if count > 0 {
        let last = (count - 1) as nat;
        lemma_stylesheet_upto(colors, last);
        let before = Seq::new(last, |index: int| index);
        assert(Seq::new(count, |index: int| index) =~= before.push(last as int));
        before.lemma_filter_push(last as int, set);
        let rules = colors.set_slots_upto(last).map_values(rule);
        if colors.slots[last as int] is Some {
            assert(colors.set_slots_upto(count).map_values(rule) =~= rules.push(
                colors.slot_rule(last as int),
            ));
            rules.lemma_flatten_push(colors.slot_rule(last as int));
        }
    }
}

/// The stylesheet holds exactly one rule for each slot that is set, in
/// catalog order, and nothing else.
pub proof fn lemma_stylesheet_rules(colors: ColorOverridesView)
    ensures
        colors.stylesheet() == colors.rules().flatten(),
        colors.rules().len() == colors.set_slots().len(),
        forall|k: int|
            0 <= k < colors.rules().len() ==> #[trigger] colors.rules()[k] == define_color(
                slot_names()[colors.set_slots()[k]],
                colors.slots[colors.set_slots()[k]]->0,
            ),
{
    lemma_stylesheet_upto(colors, SLOT_COUNT as nat);
    let places = Seq::new(SLOT_COUNT as nat, |index: int| index);
    let set = |index: int| colors.slots[index] is Some;
    assert forall|k: int| 0 <= k < colors.rules().len() implies #[trigger] colors.rules()[k]
        == define_color(
        slot_names()[colors.set_slots()[k]],
        colors.slots[colors.set_slots()[k]]->0,
    ) by {
        places.lemma_filter_pred(set, k);
    }
}

/// Where no slot but the one at `index` is set, the rules of the first
/// `count` slots are the rule of that slot, once `count` has passed it.
proof fn lemma_stylesheet_one_upto(colors: ColorOverridesView, index: int, count: int)
    requires
        0 <= count <= colors.slots.len(),
        forall|other: int|
            0 <= other < colors.slots.len() && other != index ==> colors.slots[other] is None,
    ensures
        colors.stylesheet_upto(count) == if 0 <= index < count {
            colors.slot_rule(index)
        } else {
            Seq::<char>::empty()
        },
    decreases count,
{
    if count > 0 {
        lemma_stylesheet_one_upto(colors, index, count - 1);
    }
}

/// A set in which no slot but the one at `index` is set has the rule of
/// that slot as its stylesheet: nothing, where that slot is unset too.
pub proof fn lemma_stylesheet_one(colors: ColorOverridesView, index: int)
    requires
        colors.wf(),
        0 <= index < SLOT_COUNT,
        forall|other: int| 0 <= other < SLOT_COUNT && other != index ==> colors.slots[other] is None,
    ensures
        colors.stylesheet() == colors.slot_rule(index),
{
    lemma_stylesheet_one_upto(colors, index, SLOT_COUNT as int);
}

} // verus!
