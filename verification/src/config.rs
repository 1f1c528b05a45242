//! The activation policy: which override set is active, under which mode,
//! and what applying it writes.

use vstd::prelude::*;
use vstd::string::StringExecFns;

use crate::colors::{record_file, ColorOverrides, ColorOverridesView, RECORD_EXTENSION};
use crate::error::{Lookup, ThemeError};
use crate::import::{
    appended, directive, find, kept_lines, lemma_appended_lines, lemma_directive,
    lemma_first_occurrence, lemma_lines_with, lemma_strip, lemma_with_once, lemma_with_present,
    lemma_without_absent, lemma_without_clean, lemma_without_lines, lemma_without_whole_lines, lines,
    lines_with, occurs, push_all, remove, strip, without, IMPORT, LINE_FEED,
};

verus! {

/// Name, without extension, of the file that holds the stored policy.
pub const CONFIG_NAME: &'static str = "config";

/// The selection policy. Exactly one of the two modes holds at a time, and
/// each mode has only its own fields.
#[derive(Debug)]
pub enum Config {
    /// One override set for light mode and one for dark mode; the
    /// environment's flags pick between them.
    DarkLight {
        /// Whether high-contrast mode is on.
        is_high_contrast: bool,
        /// Whether dark mode is on.
        is_dark: bool,
        /// Name of the override set for light mode.
        light: String,
        /// Name of the override set for dark mode.
        dark: String,
    },
    /// A single override set, whatever the environment says.
    Static {
        /// Name of the override set.
        name: String,
        /// Whether the generated stylesheet is imported into the
        /// toolkit-wide stylesheet, or serves this application alone.
        apply_all: bool,
    },
}

/// The mathematical value of a [`Config`].
pub enum ConfigView {
    DarkLight { is_high_contrast: bool, is_dark: bool, light: Seq<char>, dark: Seq<char> },
    Static { name: Seq<char>, apply_all: bool },
}

/// What applying a policy writes.
#[derive(Debug)]
pub struct Applied {
    /// The text of the generated stylesheet, which replaces the old one.
    pub stylesheet: String,
    /// The new content of the toolkit-wide stylesheet; nothing where that
    /// file is to be left alone.
    pub aggregate: Option<Vec<u8>>,
}

impl View for Config {
    type V = ConfigView;

    open spec fn view(&self) -> ConfigView {
        match self {
            Config::DarkLight { is_high_contrast, is_dark, light, dark } => ConfigView::DarkLight {
                is_high_contrast: *is_high_contrast,
                is_dark: *is_dark,
                light: light@,
                dark: dark@,
            },
            Config::Static { name, apply_all } => ConfigView::Static {
                name: name@,
                apply_all: *apply_all,
            },
        }
    }
}

/// The text of an optional name.
pub open spec fn name_text(name: Option<String>) -> Option<Seq<char>> {
    match name {
        Some(text) => Some(text@),
        None => None,
    }
}

/// The bytes of an optional file content.
pub open spec fn content_bytes(content: Option<&[u8]>) -> Option<Seq<u8>> {
    match content {
        Some(bytes) => Some(bytes@),
        None => None,
    }
}

/// The bytes of an optional new file content.
pub open spec fn written_bytes(content: Option<Vec<u8>>) -> Option<Seq<u8>> {
    match content {
        Some(bytes) => Some(bytes@),
        None => None,
    }
}

/// The new content of a file in which the import directive is to be present:
/// a missing file gets the directive on a line of its own, a file without
/// the directive gets it appended, and a file that holds it is left alone.
pub open spec fn import_update(existing: Option<Seq<u8>>) -> Option<Seq<u8>> {
    match existing {
        Some(content) => if occurs(content, directive()) {
            None
        } else {
            Some(appended(content, directive()))
        },
        None => Some(appended(Seq::empty(), directive())),
    }
}

/// The new content of a file in which the import directive is to be absent:
/// nothing where the directive does not occur, else the content without it.
pub open spec fn unimport_update(content: Seq<u8>) -> Option<Seq<u8>> {
    if occurs(content, directive()) {
        Some(without(content, directive()))
    } else {
        None
    }
}

/// The content of the toolkit-wide stylesheet after `import`.
pub open spec fn after_import(existing: Option<Seq<u8>>) -> Seq<u8> {
    match import_update(existing) {
        Some(content) => content,
        None => existing->0,
    }
}

/// The content of the toolkit-wide stylesheet after `unimport`.
pub open spec fn after_unimport(content: Seq<u8>) -> Seq<u8> {
    match unimport_update(content) {
        Some(rewritten) => rewritten,
        None => content,
    }
}

impl ConfigView {
    /// The policy of a first run: adaptive, dark, no names, no high contrast.
    pub open spec fn initial() -> ConfigView {
        ConfigView::DarkLight {
            is_high_contrast: false,
            is_dark: true,
            light: Seq::empty(),
            dark: Seq::empty(),
        }
    }

    /// The name that the policy resolves to. The adaptive mode yields the
    /// dark name when dark mode is on and the light name otherwise, and
    /// nothing where that name is empty. The static mode yields its name.
    pub open spec fn active_name(self) -> Option<Seq<char>> {
        match self {
            ConfigView::DarkLight { is_dark, light, dark, .. } => {
                let name = if is_dark {
                    dark
                } else {
                    light
                };
                if name.len() == 0 {
                    None
                } else {
                    Some(name)
                }
            },
            ConfigView::Static { name, .. } => Some(name),
        }
    }

    /// The name of the record to load: the active name, if it is not empty.
    pub open spec fn active_record(self) -> Option<Seq<char>> {
        match self.active_name() {
            Some(name) => if name.len() == 0 {
                None
            } else {
                Some(name)
            },
            None => None,
        }
    }

    /// The policy with the light name replaced; in static mode, with the
    /// single name replaced.
    pub open spec fn with_light(self, name: Seq<char>) -> ConfigView {
        match self {
            ConfigView::DarkLight { is_high_contrast, is_dark, light, dark } => ConfigView::DarkLight {
                is_high_contrast,
                is_dark,
                light: name,
                dark,
            },
            ConfigView::Static { apply_all, .. } => ConfigView::Static { name, apply_all },
        }
    }

    /// The policy with the dark name replaced; in static mode, with the
    /// single name replaced.
    pub open spec fn with_dark(self, name: Seq<char>) -> ConfigView {
        match self {
            ConfigView::DarkLight { is_high_contrast, is_dark, light, dark } => ConfigView::DarkLight {
                is_high_contrast,
                is_dark,
                light,
                dark: name,
            },
            ConfigView::Static { apply_all, .. } => ConfigView::Static { name, apply_all },
        }
    }

    /// The policy with the dark-mode flag replaced. A static policy has no
    /// such flag and stays as it is.
    pub open spec fn with_dark_mode(self, on: bool) -> ConfigView {
        match self {
            ConfigView::DarkLight { is_high_contrast, light, dark, .. } => ConfigView::DarkLight {
                is_high_contrast,
                is_dark: on,
                light,
                dark,
            },
            ConfigView::Static { .. } => self,
        }
    }

    /// The policy with the high-contrast flag replaced. A static policy has
    /// no such flag and stays as it is.
    pub open spec fn with_high_contrast(self, on: bool) -> ConfigView {
        match self {
            ConfigView::DarkLight { is_dark, light, dark, .. } => ConfigView::DarkLight {
                is_high_contrast: on,
                is_dark,
                light,
                dark,
            },
            ConfigView::Static { .. } => self,
        }
    }

    /// The policy with the flag for all applications replaced. An adaptive
    /// policy has no such flag and stays as it is.
    pub open spec fn with_apply_all(self, on: bool) -> ConfigView {
        match self {
            ConfigView::Static { name, .. } => ConfigView::Static { name, apply_all: on },
            ConfigView::DarkLight { .. } => self,
        }
    }

    /// The policy in the asked-for mode: itself where it is in that mode
    /// already, else the unnamed policy of the other mode. Nothing of the
    /// mode that is left carries over.
    pub open spec fn in_mode(self, adaptive: bool) -> ConfigView {
        if adaptive == (self is DarkLight) {
            self
        } else if adaptive {
            ConfigView::initial()
        } else {
            ConfigView::Static { name: Seq::empty(), apply_all: false }
        }
    }

    /// Whether the policy asks for the high-contrast variant of the set.
    pub open spec fn high_contrast(self) -> bool {
        self matches ConfigView::DarkLight { is_high_contrast, .. } && is_high_contrast
    }

    /// Whether the generated stylesheet is to serve every application.
    pub open spec fn applies_to_all(self) -> bool {
        self matches ConfigView::Static { apply_all, .. } && apply_all
    }

    /// The override set as the policy wants it rendered.
    pub open spec fn adjusted(self, colors: ColorOverridesView) -> ColorOverridesView {
        if self.high_contrast() {
            colors.high_contrast()
        } else {
            colors
        }
    }

    /// What loading yields from what is stored, and whether the result has
    /// to be written back.
    pub open spec fn load(stored: Lookup<ConfigView>) -> (ConfigView, bool) {
        match stored {
            Lookup::Found(policy) => (policy, false),
            _ => (ConfigView::initial(), true),
        }
    }

    /// The new content of the toolkit-wide stylesheet, where applying the
    /// policy has to write it. A policy for all applications makes the
    /// import directive present; any other makes it absent. A file that
    /// is already as it should be is left alone.
    pub open spec fn aggregate_update(self, existing: Option<Seq<u8>>) -> Option<Seq<u8>> {
        if self.applies_to_all() {
            import_update(existing)
        } else {
            match existing {
                Some(content) => unimport_update(content),
                None => None,
            }
        }
    }
}

impl Default for Config {
    /// The policy of a first run.
    fn default() -> (policy: Self)
        ensures
            policy@ == ConfigView::initial(),
    {
        Config::DarkLight {
            is_high_contrast: false,
            is_dark: true,
            light: String::new(),
            dark: String::new(),
        }
    }
}

impl Clone for Config {
    fn clone(&self) -> (copy: Self)
        ensures
            copy == *self,
    {
        match self {
            Config::DarkLight { is_high_contrast, is_dark, light, dark } => Config::DarkLight {
                is_high_contrast: *is_high_contrast,
                is_dark: *is_dark,
                light: light.clone(),
                dark: dark.clone(),
            },
            Config::Static { name, apply_all } => Config::Static {
                name: name.clone(),
                apply_all: *apply_all,
            },
        }
    }
}

impl PartialEq for Config {
    /// Two policies are equal when they are in the same mode with the same
    /// names and flags.
    fn eq(&self, other: &Self) -> (same: bool) {
        match (self, other) {
            (
                Config::DarkLight { is_high_contrast, is_dark, light, dark },
                Config::DarkLight {
                    is_high_contrast: other_contrast,
                    is_dark: other_dark_mode,
                    light: other_light,
                    dark: other_dark,
                },
            ) => {
                let same = *is_high_contrast == *other_contrast && *is_dark == *other_dark_mode
                    && *light == *other_light && *dark == *other_dark;
                same
            },
            (
                Config::Static { name, apply_all },
                Config::Static { name: other_name, apply_all: other_all },
            ) => {
                let same = *name == *other_name && *apply_all == *other_all;
                same
            },
            _ => false,
        }
    }
}

impl vstd::std_specs::cmp::PartialEqSpecImpl for Config {
    open spec fn obeys_eq_spec() -> bool {
        true
    }

    open spec fn eq_spec(&self, other: &Self) -> bool {
        self@ == other@
    }
}

impl Eq for Config {

}

impl Config {
    /// An adaptive policy.
    pub fn new_dark_light(is_dark: bool, high_contrast: bool, light: String, dark: String) -> (policy:
        Self)
        ensures
            policy == (Config::DarkLight { is_high_contrast: high_contrast, is_dark, light, dark }),
    {
        Config::DarkLight { is_dark, light, dark, is_high_contrast: high_contrast }
    }

    /// A static policy.
    pub fn new_static(name: String, apply_all: bool) -> (policy: Self)
        ensures
            policy == (Config::Static { name, apply_all }),
    {
        Config::Static { name, apply_all }
    }

    /// The name of the file that holds the stored policy.
    pub fn file_name() -> (file: String)
        ensures
            file@ == CONFIG_NAME@ + RECORD_EXTENSION@,
    {
        record_file(CONFIG_NAME)
    }

    /// Settles what a look-up of the stored policy found: a stored policy is
    /// taken as it is; where none is stored, or what is stored is
    /// malformed, the policy of a first run takes its place and is to be
    /// written back (`true` in the second place).
    pub fn load(stored: Lookup<Config>) -> (loaded: (Config, bool))
        ensures
            (loaded.0@, loaded.1) == ConfigView::load(stored@),
            stored matches Lookup::Found(policy) ==> loaded.0 == policy,
    {
        match stored {
            Lookup::Found(policy) => (policy, false),
            _ => (Config::default(), true),
        }
    }

    /// The name of the active override set, if the policy resolves to one.
    pub fn active_name(&self) -> (name: Option<String>)
        ensures
            name_text(name) == self@.active_name(),
    {
        match self {
            Config::DarkLight { light, dark, is_dark, .. } => {
                let chosen = if *is_dark {
                    dark
                } else {
                    light
                };
                if chosen.as_str().is_empty() {
                    None
                } else {
                    Some(chosen.clone())
                }
            },
            Config::Static { name, .. } => Some(name.clone()),
        }
    }

    /// The name of the file that holds the active override set. Fails with
    /// `NoActiveOverride` where the policy resolves to no name or to an
    /// empty one.
    pub fn active_file(&self) -> (file: Result<String, ThemeError>)
        ensures
            match self@.active_record() {
                Some(name) => file matches Ok(text) && text@ == name + RECORD_EXTENSION@,
                None => file == Err::<String, ThemeError>(ThemeError::NoActiveOverride),
            },
    {
        match self.active_name() {
            Some(name) => {
                if name.as_str().is_empty() {
                    Err(ThemeError::NoActiveOverride)
                } else {
                    Ok(record_file(name.as_str()))
                }
            },
            None => Err(ThemeError::NoActiveOverride),
        }
    }

    /// What `get_active` yields.
    pub open spec fn spec_get_active(&self, record: Lookup<ColorOverrides>) -> Result<
        ColorOverrides,
        ThemeError,
    > {
        if self@.active_record() is None {
            Err(ThemeError::NoActiveOverride)
        } else {
            record.spec_require()
        }
    }

    /// The active override set, given what the look-up of its record found.
    /// Fails with `NoActiveOverride` where the policy resolves to no name,
    /// with `NotFound` where no record is stored under the name, and with
    /// `ParseError` where the stored record is malformed.
    pub fn get_active(&self, record: Lookup<ColorOverrides>) -> (active: Result<
        ColorOverrides,
        ThemeError,
    >)
        ensures
            active == self.spec_get_active(record),
    {
        match self.active_file() {
            Ok(_) => record.require(),
            Err(error) => Err(error),
        }
    }

    /// Makes `new` the name of the light override set; in static mode, the
    /// single name.
    pub fn set_active_light(&mut self, new: &str)
        ensures
            final(self)@ == old(self)@.with_light(new@),
    {
        match self {
            Config::DarkLight { light, .. } => {
                *light = String::from_str(new);
            },
            Config::Static { name, .. } => {
                *name = String::from_str(new);
            },
        }
    }

    /// Makes `new` the name of the dark override set; in static mode, the
    /// single name.
    pub fn set_active_dark(&mut self, new: &str)
        ensures
            final(self)@ == old(self)@.with_dark(new@),
    {
        match self {
            Config::DarkLight { dark, .. } => {
                *dark = String::from_str(new);
            },
            Config::Static { name, .. } => {
                *name = String::from_str(new);
            },
        }
    }

    /// Takes note of the environment's dark-mode flag. Returns whether the
    /// policy changed; a static policy never does.
    pub fn set_dark(&mut self, on: bool) -> (changed: bool)
        ensures
            final(self)@ == old(self)@.with_dark_mode(on),
            changed == (final(self)@ != old(self)@),
    {
        match self {
            Config::DarkLight { is_dark, .. } => {
                let changed = *is_dark != on;
                *is_dark = on;
                changed
            },
            Config::Static { .. } => false,
        }
    }

    /// Takes note of the environment's high-contrast flag. Returns whether
    /// the policy changed; a static policy never does.
    pub fn set_high_contrast(&mut self, on: bool) -> (changed: bool)
        ensures
            final(self)@ == old(self)@.with_high_contrast(on),
            changed == (final(self)@ != old(self)@),
    {
        match self {
            Config::DarkLight { is_high_contrast, .. } => {
                let changed = *is_high_contrast != on;
                *is_high_contrast = on;
                changed
            },
            Config::Static { .. } => false,
        }
    }

    /// Says whether the generated stylesheet is to serve all applications.
    /// Returns whether the policy changed; an adaptive policy never does.
    pub fn set_apply_all(&mut self, on: bool) -> (changed: bool)
        ensures
            final(self)@ == old(self)@.with_apply_all(on),
            changed == (final(self)@ != old(self)@),
    {
        match self {
            Config::Static { apply_all, .. } => {
                let changed = *apply_all != on;
                *apply_all = on;
                changed
            },
            Config::DarkLight { .. } => false,
        }
    }

    /// Switches to the adaptive mode (`true`) or to the static mode
    /// (`false`). A policy that is in the mode already stays as it is. A
    /// switch leaves the unnamed policy of the new mode: no name of the old
    /// mode is carried over. Returns whether the mode was switched.
    pub fn set_mode(&mut self, adaptive: bool) -> (changed: bool)
        ensures
            final(self)@ == old(self)@.in_mode(adaptive),
            changed == (adaptive != (old(self)@ is DarkLight)),
    {
        let is_adaptive = match self {
            Config::DarkLight { .. } => true,
            Config::Static { .. } => false,
        };
        if is_adaptive == adaptive {
            false
        } else {
            if adaptive {
                *self = Config::default();
            } else {
                *self = Config::Static { name: String::new(), apply_all: false };
            }
            true
        }
    }

    /// Makes the import directive present in the toolkit-wide stylesheet,
    /// whose current content is `contents` (`None` where the file does not
    /// exist). Returns the content to write, or nothing where the directive
    /// is already there.
    pub fn import(contents: Option<&[u8]>) -> (rewritten: Option<Vec<u8>>)
        ensures
            written_bytes(rewritten) == import_update(content_bytes(contents)),
    {
        let pattern = IMPORT.as_bytes();
        let mut rewritten: Vec<u8> = Vec::new();
        if let Some(content) = contents {
            proof {
                lemma_first_occurrence(content@, pattern@);
            }
            if find(content, pattern).is_some() {
                return None;
            }
            push_all(&mut rewritten, content);
        }
        rewritten.push(LINE_FEED);
        push_all(&mut rewritten, pattern);
        rewritten.push(LINE_FEED);
        proof {
            let before = match contents {
                Some(content) => content@,
                None => Seq::empty(),
            };
        }
        Some(rewritten)
    }

    /// Makes the import directive absent from the toolkit-wide stylesheet,
    /// whose current content is `contents`. A line that is exactly the
    /// directive is dropped; the directive inside another line is taken out
    /// of it; every other byte stays. Returns the content to write, or
    /// nothing where the directive does not occur.
    pub fn unimport(contents: &[u8]) -> (rewritten: Option<Vec<u8>>)
        ensures
            written_bytes(rewritten) == unimport_update(contents@),
    {
        let pattern = IMPORT.as_bytes();
        proof {
            lemma_first_occurrence(contents@, pattern@);
        }
        if find(contents, pattern).is_none() {
            return None;
        }
        Some(remove(contents, pattern))
    }

    /// What `apply_gtk4` yields.
    pub open spec fn spec_apply(
        &self,
        record: Lookup<ColorOverrides>,
        aggregate: Option<Seq<u8>>,
        outcome: Result<Applied, ThemeError>,
    ) -> bool {
        match self.spec_get_active(record) {
            Ok(colors) => {
                &&& outcome matches Ok(applied)
                &&& applied.stylesheet@ == self@.adjusted(colors@).stylesheet()
                &&& written_bytes(applied.aggregate) == self@.aggregate_update(aggregate)
            },
            Err(error) => outcome == Err::<Applied, ThemeError>(error),
        }
    }

    /// Applies the policy: decides what is written, given what the look-up
    /// of the active record found and the current content of the
    /// toolkit-wide stylesheet (`None` where that file does not exist).
    ///
    /// Fails as `get_active` does, and then nothing is to be written. Else
    /// the generated stylesheet is the text of the active set, in its
    /// high-contrast variant where the policy is adaptive and high contrast
    /// is on; and the import directive is made present for a static policy
    /// that applies to all applications, absent for any other.
    pub fn apply_gtk4(&self, record: Lookup<ColorOverrides>, aggregate: Option<&[u8]>) -> (outcome:
        Result<Applied, ThemeError>)
        ensures
            self.spec_apply(record, content_bytes(aggregate), outcome),
    {
        let colors = match self.get_active(record) {
            Ok(colors) => colors,
            Err(error) => {
                return Err(error);
            },
        };
        let colors = match self {
            Config::DarkLight { is_high_contrast, .. } => if *is_high_contrast {
                colors.to_high_contrast()
            } else {
                colors
            },
            _ => colors,
        };
        let stylesheet = colors.as_gtk_css();
        let aggregate = match self {
            Config::Static { apply_all, .. } => if *apply_all {
                Config::import(aggregate)
            } else {
                match aggregate {
                    Some(content) => Config::unimport(content),
                    None => None,
                }
            },
            _ => match aggregate {
                Some(content) => Config::unimport(content),
                None => None,
            },
        };
        Ok(Applied { stylesheet, aggregate })
    }
}

impl From<(ColorOverrides, ColorOverrides)> for Config {
    /// The adaptive policy that selects the two sets by their names.
    fn from(pair: (ColorOverrides, ColorOverrides)) -> (policy: Self) {
        let (light, dark) = pair;
        Config::DarkLight {
            is_dark: true,
            is_high_contrast: false,
            light: light.name,
            dark: dark.name,
        }
    }
}

impl vstd::std_specs::convert::FromSpecImpl<(ColorOverrides, ColorOverrides)> for Config {
    open spec fn obeys_from_spec() -> bool {
        true
    }

    open spec fn from_spec(pair: (ColorOverrides, ColorOverrides)) -> Self {
        Config::DarkLight {
            is_high_contrast: false,
            is_dark: true,
            light: pair.0.name,
            dark: pair.1.name,
        }
    }
}

impl From<ColorOverrides> for Config {
    /// The static policy that selects the set by its name, for this
    /// application alone.
    fn from(colors: ColorOverrides) -> (policy: Self) {
        Config::Static { name: colors.name, apply_all: false }
    }
}

impl vstd::std_specs::convert::FromSpecImpl<ColorOverrides> for Config {
    open spec fn obeys_from_spec() -> bool {
        true
    }

    open spec fn from_spec(colors: ColorOverrides) -> Self {
        Config::Static { name: colors.name, apply_all: false }
    }
}

/// Loading settles: what a load yields, stored and loaded again, is the
/// same policy, and the second load asks for no write. Where nothing
/// well-formed is stored, the load yields the policy of a first run and
/// asks for it to be written.
pub proof fn lemma_load_settles(stored: Lookup<ConfigView>)
    ensures
        ConfigView::load(Lookup::Found(ConfigView::load(stored).0)) == (
            ConfigView::load(stored).0,
            false,
        ),
        !(stored is Found) ==> ConfigView::load(stored) == (ConfigView::initial(), true),
{
}

/// A switch of mode leaves a policy that selects no override set, and so
/// none that the other mode had selected.
pub proof fn lemma_mode_switch(policy: ConfigView, adaptive: bool)
    requires
        adaptive != (policy is DarkLight),
    ensures
        policy.in_mode(adaptive) is DarkLight == adaptive,
        policy.in_mode(adaptive).active_record() is None,
        policy.in_mode(adaptive).in_mode(adaptive) == policy.in_mode(adaptive),
{
}

/// After `import` the directive is present, and a second `import` leaves
/// the file alone. Where the file did not exist, or held the directive in
/// at most one line, it now holds the directive in exactly one line. The
/// lines that the file had are all still there, in their order and before
/// anything that was added. An existing file is rewritten only where that
/// changes it.
pub proof fn lemma_import_once(existing: Option<Seq<u8>>)
    ensures
        occurs(after_import(existing), directive()),
        existing matches Some(content) ==> (import_update(existing) is Some <==> after_import(
            existing,
        ) != content),
        import_update(Some(after_import(existing))) is None,
        after_import(Some(after_import(existing))) == after_import(existing),
        existing matches Some(content) ==> lines(after_import(existing)) == if occurs(
            content,
            directive(),
        ) {
            lines(content)
        } else {
            lines(content) + seq![directive(), Seq::empty()]
        },
        (existing matches Some(content) ==> lines_with(content, directive()) <= 1) ==> lines_with(
            after_import(existing),
            directive(),
        ) == 1,
{
    lemma_directive();
    let before = match existing {
        Some(content) => content,
        None => Seq::empty(),
    };
    lemma_with_present(before, directive());
    lemma_lines_with(before, directive());
    lemma_appended_lines(before, directive());
    if existing matches Some(content) ==> lines_with(content, directive()) <= 1 {
        lemma_with_once(before, directive());
    }
}

/// After `unimport` the directive occurs nowhere in the file, and a second
/// `unimport` leaves the file alone. The lines of the file are the lines
/// that it had before, in their order, but for those that were exactly
/// the directive; a line in which the directive did not occur is the same
/// as before. The file is rewritten only where that changes it.
pub proof fn lemma_unimport_clean(content: Seq<u8>)
    ensures
        after_unimport(content) == without(content, directive()),
        unimport_update(content) is Some <==> after_unimport(content) != content,
        !occurs(after_unimport(content), directive()),
        lines_with(after_unimport(content), directive()) == 0,
        unimport_update(after_unimport(content)) is None,
        kept_lines(lines(content), directive()).len() > 0 ==> lines(after_unimport(content))
            == kept_lines(lines(content), directive()),
        kept_lines(lines(content), directive()).len() == 0 ==> after_unimport(content).len() == 0,
        forall|line: Seq<u8>|
            !occurs(line, directive()) ==> #[trigger] strip(line, directive()) == line,
{
    lemma_directive();
    lemma_without_clean(content, directive());
    if !occurs(content, directive()) {
        lemma_without_absent(content, directive());
    }
    lemma_lines_with(after_unimport(content), directive());
    lemma_without_lines(content, directive());
    assert forall|line: Seq<u8>| !occurs(line, directive()) implies #[trigger] strip(
        line,
        directive(),
    ) == line by {
        lemma_strip(line, directive());
    }
}

/// Where the directive occurs in the file as whole lines only, `unimport`
/// drops these lines and keeps every other line as it is.
pub proof fn lemma_unimport_whole_lines(content: Seq<u8>)
    requires
        forall|k: int|
            0 <= k < lines(content).len() ==> (#[trigger] lines(content)[k]) == directive()
                || !occurs(lines(content)[k], directive()),
    ensures
        kept_lines(lines(content), directive()) == lines(content).filter(
            |line: Seq<u8>| line != directive(),
        ),
{
    lemma_directive();
    lemma_without_whole_lines(content, directive());
}

} // verus!
