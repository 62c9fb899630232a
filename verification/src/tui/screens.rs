//! The screens of the wizard, each with what it shows as selected or typed.

use crate::compress::Compression;
use crate::text::{pop_char, push_char, trim_text, trimmed_text};
use vstd::prelude::*;
use vstd::string::StringExecFns;

verus! {

/// How `/init` is chosen.
#[derive(Debug, Clone)]
pub enum InitMode {
    /// The default script.
    Default,
    /// The host file at this path.
    CustomFile(String),
}

/// One injection as the wizard holds it: a host path and a destination.
#[derive(Debug, Clone)]
pub struct Injection {
    pub src: String,
    pub dest: String,
}

/// The next index in a list of `len` items, going round from the last to the
/// first.
pub open spec fn next_index(selected: int, len: int) -> int {
    (selected + 1) % len
}

/// The previous index in a list of `len` items, going round from the first
/// to the last.
pub open spec fn prev_index(selected: int, len: int) -> int {
    if selected > 0 {
        selected - 1
    } else {
        len - 1
    }
}

/// The screen that chooses between the two architectures.
#[derive(Debug, Clone)]
pub struct ArchScreen {
    pub selected: usize,
    pub options: [&'static str; 2],
}

/// The index of `arch` among the options: 1 for `arm64`, 0 for anything else.
pub open spec fn arch_index(arch: Seq<char>) -> usize {
    if arch == "arm64"@ {
        1
    } else {
        0
    }
}

impl ArchScreen {
    /// One of the two options is selected.
    pub open spec fn well_formed(&self) -> bool {
        self.selected < 2
    }

    /// Whether the screen is as it is made for `arch`: the two architectures,
    /// with `arch` selected, or the first where `arch` is neither.
    pub open spec fn is_fresh(&self, arch: Seq<char>) -> bool {
        &&& self.selected == arch_index(arch)
        &&& self.options@[0]@ == "amd64"@
        &&& self.options@[1]@ == "arm64"@
    }

    /// The screen with `arch` selected, or the first option where `arch` is
    /// neither.
    pub fn new_with_default(arch: &str) -> (screen: Self)
        ensures
            screen.is_fresh(arch@),
            screen.well_formed(),
    {
        let selected: usize = if crate::text::str_equal(arch, "arm64") {
            1
        } else {
            0
        };
        ArchScreen { selected, options: ["amd64", "arm64"] }
    }

    /// What `sync_from_config` makes of the screen.
    pub open spec fn was_sync_from_config(before: Self, after: Self, arch: Seq<char>) -> bool {
        &&& after.selected == arch_index(arch)
        &&& after.options == before.options
    }

    /// Selects `arch`, or the first option where `arch` is neither.
    pub fn sync_from_config(&mut self, arch: &str)
        ensures
            Self::was_sync_from_config(*old(self), *final(self), arch@),
    {
        self.selected = if crate::text::str_equal(arch, "arm64") {
            1
        } else {
            0
        };
    }

    /// What `toggle` makes of the screen.
    pub open spec fn was_toggle(before: Self, after: Self) -> bool {
        &&& after.selected == 1 - before.selected
        &&& after.options == before.options
    }

    /// Selects the other option.
    pub fn toggle(&mut self)
        requires
            old(self).well_formed(),
        ensures
            Self::was_toggle(*old(self), *final(self)),
    {
        self.selected = 1 - self.selected;
    }

    /// The option that is selected.
    pub fn get_selected(&self) -> (arch: &'static str)
        requires
            self.well_formed(),
        ensures
            arch == self.options@[self.selected as int],
    {
        self.options[self.selected]
    }
}

/// The screen that chooses the compression.
#[derive(Debug, Clone)]
pub struct CompressScreen {
    pub selected: usize,
    pub options: [(Compression, &'static str); 3],
}

impl CompressScreen {
    /// One of the three options is selected.
    pub open spec fn well_formed(&self) -> bool {
        self.selected < 3
    }

    /// Whether the screen is as it is made: the three modes, each with what
    /// is said of it, and gzip, the first, selected.
    pub open spec fn is_fresh(&self) -> bool {
        &&& self.selected == 0
        &&& self.options@[0].0 == Compression::Gzip
        &&& self.options@[0].1@ == "gzip - Default, widely compatible"@
        &&& self.options@[1].0 == Compression::Zstd
        &&& self.options@[1].1@ == "zstd - Better compression, faster"@
        &&& self.options@[2].0 == Compression::Raw
        &&& self.options@[2].1@ == "none - No compression"@
    }

    /// The screen with gzip, the first option, selected.
    pub fn new() -> (screen: Self)
        ensures
            screen.is_fresh(),
            screen.well_formed(),
    {
        CompressScreen {
            selected: 0,
            options: [
                (Compression::Gzip, "gzip - Default, widely compatible"),
                (Compression::Zstd, "zstd - Better compression, faster"),
                (Compression::Raw, "none - No compression"),
            ],
        }
    }

    /// What `next` makes of the screen.
    pub open spec fn was_next(before: Self, after: Self) -> bool {
        &&& after.selected == next_index(before.selected as int, 3)
        &&& after.options == before.options
        &&& after.well_formed()
    }

    /// Selects the next option, the first after the last.
    pub fn next(&mut self)
        requires
            old(self).selected < usize::MAX,
        ensures
            Self::was_next(*old(self), *final(self)),
    {
        self.selected = (self.selected + 1) % 3;
    }

    /// What `prev` makes of the screen.
    pub open spec fn was_prev(before: Self, after: Self) -> bool {
        &&& after.selected == prev_index(before.selected as int, 3)
        &&& after.options == before.options
        &&& before.well_formed() ==> after.well_formed()
    }

    /// Selects the previous option, the last before the first.
    pub fn prev(&mut self)
        ensures
            Self::was_prev(*old(self), *final(self)),
    {
        if self.selected > 0 {
            self.selected -= 1;
        } else {
            self.selected = 2;
        }
    }

    /// The compression that is selected.
    pub fn get_selected(&self) -> (compression: Compression)
        requires
            self.well_formed(),
        ensures
            compression == self.options@[self.selected as int].0,
    {
        self.options[self.selected].0
    }
}

/// The screen on which the image is typed.
#[derive(Debug, Clone)]
pub struct ImageScreen {
    pub input: String,
    pub error: Option<String>,
}

impl ImageScreen {
    /// Whether the screen is as it is made: nothing typed, no error.
    pub open spec fn is_fresh(&self) -> bool {
        &&& self.input@ == Seq::<char>::empty()
        &&& self.error is None
    }

    /// The screen with nothing typed and no error.
    pub fn new() -> (screen: Self)
        ensures
            screen.is_fresh(),
    {
        ImageScreen { input: String::new(), error: None }
    }

    /// What `sync_from_config` makes of the screen.
    pub open spec fn was_sync_from_config(before: Self, after: Self, image: Seq<char>) -> bool {
        &&& after.input@ == (if before.input@.len() == 0 { image } else { before.input@ })
        &&& after.error is None
    }

    /// Shows `image` where nothing has been typed yet, and clears the error.
    pub fn sync_from_config(&mut self, image: &str)
        ensures
            Self::was_sync_from_config(*old(self), *final(self), image@),
    {
        if self.input.as_str().is_empty() {
            self.input = String::from_str(image);
        }
        self.error = None;
    }

    /// What was typed, without white space around it.
    pub fn sync_to_config(&self) -> (image: String)
        ensures
            image@ == trimmed_text(self.input@),
    {
        trim_text(self.input.as_str())
    }

    /// What `set_error` makes of the screen.
    pub open spec fn was_set_error(before: Self, after: Self, msg: Seq<char>) -> bool {
        &&& after.input == before.input
        &&& after.error matches Some(text) && text@ == msg
    }

    /// Shows `msg` as the error.
    pub fn set_error(&mut self, msg: &str)
        ensures
            Self::was_set_error(*old(self), *final(self), msg@),
    {
        self.error = Some(String::from_str(msg));
    }
}

/// The screen that chooses between the default init and a file.
#[derive(Debug, Clone)]
pub struct InitScreen {
    pub selected: usize,
    pub path_input: String,
}

impl InitScreen {
    /// One of the two options is selected.
    pub open spec fn well_formed(&self) -> bool {
        self.selected < 2
    }

    /// Whether the screen is as it is made: the default init selected, no
    /// path typed.
    pub open spec fn is_fresh(&self) -> bool {
        &&& self.selected == 0
        &&& self.path_input@ == Seq::<char>::empty()
    }

    /// The screen with the default init selected and no path typed.
    pub fn new() -> (screen: Self)
        ensures
            screen.is_fresh(),
    {
        InitScreen { selected: 0, path_input: String::new() }
    }

    /// What `toggle` makes of the screen.
    pub open spec fn was_toggle(before: Self, after: Self) -> bool {
        &&& after.selected == 1 - before.selected
        &&& after.path_input == before.path_input
    }

    /// Selects the other option.
    pub fn toggle(&mut self)
        requires
            old(self).well_formed(),
        ensures
            Self::was_toggle(*old(self), *final(self)),
    {
        self.selected = 1 - self.selected;
    }

    /// The choice: the default init with the first option, the typed path
    /// with any other.
    pub fn get_init_mode(&self) -> (mode: InitMode)
        ensures
            self.selected == 0 ==> mode is Default,
            self.selected != 0 ==> (mode matches InitMode::CustomFile(path) && path@
                == self.path_input@),
    {
        if self.selected == 0 {
            InitMode::Default
        } else {
            InitMode::CustomFile(self.path_input.clone())
        }
    }
}

/// The screen that lists the injections and takes a new one.
#[derive(Debug, Clone)]
pub struct InjectScreen {
    pub items: Vec<(String, String)>,
    pub selected: usize,
    pub editing: bool,
    /// Which of the two inputs is typed into: 0 the source, 1 the destination.
    pub edit_field: usize,
    pub src_input: String,
    pub dest_input: String,
}

impl InjectScreen {
    /// The selection is inside the list, or 0 where the list is empty, and
    /// one of the two inputs is typed into.
    pub open spec fn well_formed(&self) -> bool {
        &&& self.edit_field < 2
        &&& self.selected < self.items@.len() || self.selected == 0
    }

    /// Whether the screen is as it is made: no injections, not editing, both
    /// inputs empty.
    pub open spec fn is_fresh(&self) -> bool {
        &&& self.items@.len() == 0
        &&& self.selected == 0
        &&& !self.editing
        &&& self.edit_field == 0
        &&& self.src_input@ == Seq::<char>::empty()
        &&& self.dest_input@ == Seq::<char>::empty()
    }

    /// The screen without injections, not editing.
    pub fn new() -> (screen: Self)
        ensures
            screen.is_fresh(),
            screen.well_formed(),
    {
        InjectScreen {
            items: Vec::new(),
            selected: 0,
            editing: false,
            edit_field: 0,
            src_input: String::new(),
            dest_input: String::new(),
        }
    }

    /// What `next` makes of the screen.
    pub open spec fn was_next(before: Self, after: Self) -> bool {
        &&& after.well_formed()
        &&& after.selected == (if before.items@.len() == 0 {
            before.selected as int
        } else {
            next_index(before.selected as int, before.items@.len() as int)
        })
        &&& after.items == before.items
        &&& after.editing == before.editing
        &&& after.edit_field == before.edit_field
        &&& after.src_input == before.src_input
        &&& after.dest_input == before.dest_input
    }

    /// Selects the next injection, the first after the last; nothing in an
    /// empty list.
    pub fn next(&mut self)
        requires
            old(self).well_formed(),
        ensures
            Self::was_next(*old(self), *final(self)),
    {
        if self.items.len() > 0 {
            self.selected = (self.selected + 1) % self.items.len();
        }
    }

    /// What `prev` makes of the screen.
    pub open spec fn was_prev(before: Self, after: Self) -> bool {
        &&& after.well_formed()
        &&& after.selected == (if before.items@.len() == 0 {
            before.selected as int
        } else {
            prev_index(before.selected as int, before.items@.len() as int)
        })
        &&& after.items == before.items
        &&& after.editing == before.editing
        &&& after.edit_field == before.edit_field
        &&& after.src_input == before.src_input
        &&& after.dest_input == before.dest_input
    }

    /// Selects the previous injection, the last before the first; nothing in
    /// an empty list.
    pub fn prev(&mut self)
        requires
            old(self).well_formed(),
        ensures
            Self::was_prev(*old(self), *final(self)),
    {
        if self.items.len() > 0 {
            if self.selected > 0 {
                self.selected -= 1;
            } else {
                self.selected = self.items.len() - 1;
            }
        }
    }

    /// What `start_add` makes of the screen.
    pub open spec fn was_start_add(before: Self, after: Self) -> bool {
        &&& after.editing
        &&& after.edit_field == 0
        &&& after.src_input@ == Seq::<char>::empty()
        &&& after.dest_input@ == Seq::<char>::empty()
        &&& after.items == before.items
        &&& after.selected == before.selected
    }

    /// Begins a new injection: both inputs empty, the source typed into.
    pub fn start_add(&mut self)
        ensures
            Self::was_start_add(*old(self), *final(self)),
    {
        self.editing = true;
        self.edit_field = 0;
        self.src_input = String::new();
        self.dest_input = String::new();
    }

    /// What `cancel_edit` makes of the screen.
    pub open spec fn was_cancel_edit(before: Self, after: Self) -> bool {
        &&& !after.editing
        &&& after.src_input@ == Seq::<char>::empty()
        &&& after.dest_input@ == Seq::<char>::empty()
        &&& after.items == before.items
        &&& after.selected == before.selected
        &&& after.edit_field == before.edit_field
    }

    /// Gives the new injection up.
    pub fn cancel_edit(&mut self)
        ensures
            Self::was_cancel_edit(*old(self), *final(self)),
    {
        self.editing = false;
        self.src_input = String::new();
        self.dest_input = String::new();
    }

    /// What `confirm_edit` makes of the screen.
    pub open spec fn was_confirm_edit(before: Self, after: Self) -> bool {
        &&& !after.editing
        &&& after.src_input@ == Seq::<char>::empty()
        &&& after.dest_input@ == Seq::<char>::empty()
        &&& after.selected == before.selected
        &&& after.edit_field == before.edit_field
        &&& before.src_input@.len() > 0 && before.dest_input@.len() > 0 ==>
            after.items@ == before.items@.push((before.src_input, before.dest_input))
        &&& !(before.src_input@.len() > 0 && before.dest_input@.len() > 0) ==>
            after.items == before.items
    }

    /// Ends the editing. The new injection is added behind the others if both
    /// of its inputs hold something, and dropped if not.
    pub fn confirm_edit(&mut self)
        ensures
            Self::was_confirm_edit(*old(self), *final(self)),
    {
        if !self.src_input.as_str().is_empty() && !self.dest_input.as_str().is_empty() {
            self.items.push((self.src_input.clone(), self.dest_input.clone()));
        }
        self.editing = false;
        self.src_input = String::new();
        self.dest_input = String::new();
    }

    /// What `delete_selected` makes of the screen.
    pub open spec fn was_delete_selected(before: Self, after: Self) -> bool {
        &&& after.well_formed()
        &&& before.items@.len() == 0 ==> after == before
        &&& before.items@.len() > 0 ==> after.items@ == before.items@.remove(before.selected as int)
        &&& before.items@.len() > 0 ==> after.selected == (if
            before.selected > 0 && before.selected >= before.items@.len() - 1 {
            before.items@.len() - 2
        } else {
            before.selected as int
        })
        &&& after.editing == before.editing
        &&& after.edit_field == before.edit_field
        &&& after.src_input == before.src_input
        &&& after.dest_input == before.dest_input
    }

    /// Takes the selected injection out of the list. The selection stays where
    /// it is, or moves to the new last item where it was on the last.
    pub fn delete_selected(&mut self)
        requires
            old(self).well_formed(),
        ensures
            Self::was_delete_selected(*old(self), *final(self)),
    {
        if self.items.len() > 0 {
            self.items.remove(self.selected);
            if self.selected > 0 && self.selected >= self.items.len() {
                self.selected = self.items.len() - 1;
            }
        }
    }

    /// What `toggle_field` makes of the screen.
    pub open spec fn was_toggle_field(before: Self, after: Self) -> bool {
        &&& after.edit_field == 1 - before.edit_field
        &&& after.items == before.items
        &&& after.selected == before.selected
        &&& after.editing == before.editing
        &&& after.src_input == before.src_input
        &&& after.dest_input == before.dest_input
    }

    /// Moves the typing to the other input.
    pub fn toggle_field(&mut self)
        requires
            old(self).well_formed(),
        ensures
            Self::was_toggle_field(*old(self), *final(self)),
    {
        self.edit_field = 1 - self.edit_field;
    }

    /// What `input_char` makes of the screen.
    pub open spec fn was_input_char(before: Self, after: Self, c: char) -> bool {
        &&& after.src_input@ == (if before.edit_field == 0 {
            before.src_input@.push(c)
        } else {
            before.src_input@
        })
        &&& after.dest_input@ == (if before.edit_field == 0 {
            before.dest_input@
        } else {
            before.dest_input@.push(c)
        })
        &&& after.items == before.items
        &&& after.selected == before.selected
        &&& after.editing == before.editing
        &&& after.edit_field == before.edit_field
    }

    /// Types `c` into the input that is typed into.
    pub fn input_char(&mut self, c: char)
        ensures
            Self::was_input_char(*old(self), *final(self), c),
    {
        if self.edit_field == 0 {
            push_char(&mut self.src_input, c);
        } else {
            push_char(&mut self.dest_input, c);
        }
    }

    /// What `backspace` makes of the screen.
    pub open spec fn was_backspace(before: Self, after: Self) -> bool {
        &&& after.src_input@ == (if before.edit_field == 0 && before.src_input@.len() > 0 {
            before.src_input@.drop_last()
        } else {
            before.src_input@
        })
        &&& after.dest_input@ == (if before.edit_field != 0 && before.dest_input@.len() > 0 {
            before.dest_input@.drop_last()
        } else {
            before.dest_input@
        })
        &&& after.items == before.items
        &&& after.selected == before.selected
        &&& after.editing == before.editing
        &&& after.edit_field == before.edit_field
    }

    /// Takes the last character off the input that is typed into.
    pub fn backspace(&mut self)
        ensures
            Self::was_backspace(*old(self), *final(self)),
    {
        if self.edit_field == 0 {
            let _ = pop_char(&mut self.src_input);
        } else {
            let _ = pop_char(&mut self.dest_input);
        }
    }

    /// The injections of the list, in its order.
    pub fn get_injections(&self) -> (injections: Vec<Injection>)
        ensures
            injections@.len() == self.items@.len(),
            forall|i: int|
                0 <= i < self.items@.len() ==> (#[trigger] injections@[i]).src@ == self.items@[i].0@
                    && injections@[i].dest@ == self.items@[i].1@,
    {
        let mut injections: Vec<Injection> = Vec::new();
        let mut i: usize = 0;
        while i < self.items.len()
            invariant
                i <= self.items.len(),
                injections@.len() == i,
                forall|j: int|
                    0 <= j < i ==> (#[trigger] injections@[j]).src@ == self.items@[j].0@
                        && injections@[j].dest@ == self.items@[j].1@,
            decreases self.items.len() - i,
        {
            let item = &self.items[i];
            injections.push(Injection { src: item.0.clone(), dest: item.1.clone() });
            i += 1;
        }
        injections
    }
}

/// A runtime that the wizard offers, with the images of its versions: each
/// version with the image that provides it.
#[derive(Debug, Clone)]
pub struct RuntimePreset {
    pub name: &'static str,
    pub versions: Vec<(&'static str, &'static str)>,
}

/// Whether `table` is the list of runtimes that the wizard offers: Python,
/// Node.js, Go, Rust and Java, each with the images of its versions, the
/// newest first, and `Custom`, which has none.
pub open spec fn is_preset_table(table: Seq<RuntimePreset>) -> bool {
    &&& table.len() == 6
    &&& table[0].name@ == "Python"@
    &&& table[0].versions@.len() == 3
    &&& table[0].versions@[0].0@ == "3.12"@
    &&& table[0].versions@[0].1@ == "python:3.12-alpine"@
    &&& table[0].versions@[1].0@ == "3.11"@
    &&& table[0].versions@[1].1@ == "python:3.11-alpine"@
    &&& table[0].versions@[2].0@ == "3.10"@
    &&& table[0].versions@[2].1@ == "python:3.10-alpine"@
    &&& table[1].name@ == "Node.js"@
    &&& table[1].versions@.len() == 3
    &&& table[1].versions@[0].0@ == "22"@
    &&& table[1].versions@[0].1@ == "node:22-alpine"@
    &&& table[1].versions@[1].0@ == "20"@
    &&& table[1].versions@[1].1@ == "node:20-alpine"@
    &&& table[1].versions@[2].0@ == "18"@
    &&& table[1].versions@[2].1@ == "node:18-alpine"@
    &&& table[2].name@ == "Go"@
    &&& table[2].versions@.len() == 3
    &&& table[2].versions@[0].0@ == "1.23"@
    &&& table[2].versions@[0].1@ == "golang:1.23-alpine"@
    &&& table[2].versions@[1].0@ == "1.22"@
    &&& table[2].versions@[1].1@ == "golang:1.22-alpine"@
    &&& table[2].versions@[2].0@ == "1.21"@
    &&& table[2].versions@[2].1@ == "golang:1.21-alpine"@
    &&& table[3].name@ == "Rust"@
    &&& table[3].versions@.len() == 2
    &&& table[3].versions@[0].0@ == "1.85"@
    &&& table[3].versions@[0].1@ == "rust:1.85-alpine"@
    &&& table[3].versions@[1].0@ == "1.84"@
    &&& table[3].versions@[1].1@ == "rust:1.84-alpine"@
    &&& table[4].name@ == "Java"@
    &&& table[4].versions@.len() == 3
    &&& table[4].versions@[0].0@ == "21"@
    &&& table[4].versions@[0].1@ == "eclipse-temurin:21-alpine"@
    &&& table[4].versions@[1].0@ == "17"@
    &&& table[4].versions@[1].1@ == "eclipse-temurin:17-alpine"@
    &&& table[4].versions@[2].0@ == "11"@
    &&& table[4].versions@[2].1@ == "eclipse-temurin:11-alpine"@
    &&& table[5].name@ == "Custom"@
    &&& table[5].versions@.len() == 0
}

/// The runtimes that the wizard offers. The last, `Custom`, has no versions:
/// its image is typed on the next screen.
pub fn presets() -> (table: Vec<RuntimePreset>)
    ensures
        is_preset_table(table@),
{
    let mut table: Vec<RuntimePreset> = Vec::new();
    table.push(
        RuntimePreset {
            name: "Python",
            versions: vec![
                ("3.12", "python:3.12-alpine"),
                ("3.11", "python:3.11-alpine"),
                ("3.10", "python:3.10-alpine"),
            ],
        },
    );
    table.push(
        RuntimePreset {
            name: "Node.js",
            versions: vec![
                ("22", "node:22-alpine"),
                ("20", "node:20-alpine"),
                ("18", "node:18-alpine"),
            ],
        },
    );
    table.push(
        RuntimePreset {
            name: "Go",
            versions: vec![
                ("1.23", "golang:1.23-alpine"),
                ("1.22", "golang:1.22-alpine"),
                ("1.21", "golang:1.21-alpine"),
            ],
        },
    );
    table.push(
        RuntimePreset {
            name: "Rust",
            versions: vec![
                ("1.85", "rust:1.85-alpine"),
                ("1.84", "rust:1.84-alpine"),
            ],
        },
    );
    table.push(
        RuntimePreset {
            name: "Java",
            versions: vec![
                ("21", "eclipse-temurin:21-alpine"),
                ("17", "eclipse-temurin:17-alpine"),
                ("11", "eclipse-temurin:11-alpine"),
            ],
        },
    );
    table.push(RuntimePreset { name: "Custom", versions: Vec::new() });
    table
}

/// The screen that chooses a runtime and one of its versions.
#[derive(Debug, Clone)]
pub struct LanguageScreen {
    pub selected: usize,
    pub version_selected: usize,
    pub presets: Vec<RuntimePreset>,
}

impl LanguageScreen {
    /// A runtime of the list is selected, and one of its versions, or the
    /// first where it has none.
    pub open spec fn well_formed(&self) -> bool {
        &&& self.selected < self.presets@.len()
        &&& self.version_selected < self.presets@[self.selected as int].versions@.len()
            || self.version_selected == 0
    }

    /// Whether the screen is as it is made: the runtimes that the wizard
    /// offers, the first of them and its first version selected.
    pub open spec fn is_fresh(&self) -> bool {
        &&& self.selected == 0
        &&& self.version_selected == 0
        &&& is_preset_table(self.presets@)
    }

    /// The screen with the first runtime and its first version selected.
    pub fn new() -> (screen: Self)
        ensures
            screen.is_fresh(),
            screen.well_formed(),
    {
        LanguageScreen { selected: 0, version_selected: 0, presets: presets() }
    }

    /// What `next` makes of the screen.
    pub open spec fn was_next(before: Self, after: Self) -> bool {
        &&& after.well_formed()
        &&& after.selected == next_index(before.selected as int, before.presets@.len() as int)
        &&& after.version_selected == 0
        &&& after.presets == before.presets
    }

    /// Selects the next runtime, the first after the last, and its first
    /// version.
    pub fn next(&mut self)
        requires
            old(self).well_formed(),
        ensures
            Self::was_next(*old(self), *final(self)),
    {
        let count = self.presets.len();
        self.selected = (self.selected + 1) % count;
        self.version_selected = 0;
    }

    /// What `prev` makes of the screen.
    pub open spec fn was_prev(before: Self, after: Self) -> bool {
        &&& after.well_formed()
        &&& after.selected == prev_index(before.selected as int, before.presets@.len() as int)
        &&& after.version_selected == 0
        &&& after.presets == before.presets
    }

    /// Selects the previous runtime, the last before the first, and its first
    /// version.
    pub fn prev(&mut self)
        requires
            old(self).well_formed(),
        ensures
            Self::was_prev(*old(self), *final(self)),
    {
        if self.selected > 0 {
            self.selected -= 1;
        } else {
            self.selected = self.presets.len() - 1;
        }
        self.version_selected = 0;
    }

    /// What `next_version` makes of the screen.
    pub open spec fn was_next_version(before: Self, after: Self) -> bool {
        &&& after.well_formed()
        &&& after.selected == before.selected
        &&& after.presets == before.presets
        &&& after.version_selected == (if
            before.presets@[before.selected as int].versions@.len() == 0 {
            before.version_selected as int
        } else {
            next_index(
                before.version_selected as int,
                before.presets@[before.selected as int].versions@.len() as int,
            )
        })
    }

    /// Selects the next version of the runtime, the first after the last;
    /// nothing where it has none.
    pub fn next_version(&mut self)
        requires
            old(self).well_formed(),
        ensures
            Self::was_next_version(*old(self), *final(self)),
    {
        let count = self.presets[self.selected].versions.len();
        if count > 0 {
            self.version_selected = (self.version_selected + 1) % count;
        }
    }

    /// What `prev_version` makes of the screen.
    pub open spec fn was_prev_version(before: Self, after: Self) -> bool {
        &&& after.well_formed()
        &&& after.selected == before.selected
        &&& after.presets == before.presets
        &&& after.version_selected == (if
            before.presets@[before.selected as int].versions@.len() == 0 {
            before.version_selected as int
        } else {
            prev_index(
                before.version_selected as int,
                before.presets@[before.selected as int].versions@.len() as int,
            )
        })
    }

    /// Selects the previous version of the runtime, the last before the
    /// first; nothing where it has none.
    pub fn prev_version(&mut self)
        requires
            old(self).well_formed(),
        ensures
            Self::was_prev_version(*old(self), *final(self)),
    {
        let count = self.presets[self.selected].versions.len();
        if count > 0 {
            if self.version_selected > 0 {
                self.version_selected -= 1;
            } else {
                self.version_selected = count - 1;
            }
        }
    }
}

} // verus!
