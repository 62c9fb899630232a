//! The wizard as a whole: which screen is shown, what has been chosen so
//! far, and how the screens follow each other.

use crate::builder::InitramfsBuilder;
use crate::compress::Compression;
use crate::registry::RegistryAuth;
use crate::text::{str_equal, trim_text, trimmed_text};
use crate::tui::screens::{
    ArchScreen, CompressScreen, ImageScreen, InitMode, InitScreen, InjectScreen, Injection,
    LanguageScreen,
};
use vstd::prelude::*;
use vstd::string::StringExecFns;

verus! {

/// The screens of the wizard, in the order of the advanced mode.
#[derive(Debug, Clone, Copy, PartialEq, Eq, Structural)]
pub enum Screen {
    Language,
    Image,
    Architecture,
    Inject,
    Init,
    Compression,
    Summary,
    Building,
}

/// Whether the wizard asks for the image only, or for everything.
#[derive(Debug, Clone, Copy, PartialEq, Eq, Structural)]
pub enum WizardMode {
    Quick,
    Advanced,
}

impl Default for WizardMode {
    fn default() -> (mode: Self)
        ensures
            mode == WizardMode::Quick,
    {
        WizardMode::Quick
    }
}

/// What the wizard has collected.
#[derive(Debug, Clone)]
pub struct BuildConfig {
    pub image: String,
    pub arch: String,
    pub injections: Vec<Injection>,
    pub init_mode: InitMode,
    pub compression: Compression,
    pub output: String,
}

/// The architecture, as registries name it, of a machine as the compiler
/// names it: `arm64` for `aarch64`, and `amd64` for `x86_64` and for anything
/// else.
pub open spec fn host_arch(machine: Seq<char>) -> Seq<char> {
    if machine == "aarch64"@ {
        "arm64"@
    } else {
        "amd64"@
    }
}

/// The architecture, as registries name it, of the machine `machine`.
pub fn detect_host_arch(machine: &str) -> (arch: &'static str)
    ensures
        arch@ == host_arch(machine@),
{
    if str_equal(machine, "aarch64") {
        "arm64"
    } else {
        "amd64"
    }
}

impl BuildConfig {
    /// Whether the choices are those that the wizard starts from on the
    /// machine `machine`: no image, the machine's architecture, no injections,
    /// the default init, gzip, and the output `initramfs.cpio.gz`.
    pub open spec fn is_fresh(&self, machine: Seq<char>) -> bool {
        &&& self.image@ == Seq::<char>::empty()
        &&& self.arch@ == host_arch(machine)
        &&& self.injections@.len() == 0
        &&& self.init_mode is Default
        &&& self.compression == Compression::Gzip
        &&& self.output@ == "initramfs.cpio.gz"@
    }

    /// What the wizard starts from on the machine `machine`.
    pub fn for_machine(machine: &str) -> (config: Self)
        ensures
            config.is_fresh(machine@),
    {
        BuildConfig {
            image: String::new(),
            arch: String::from_str(detect_host_arch(machine)),
            injections: Vec::new(),
            init_mode: InitMode::Default,
            compression: Compression::Gzip,
            output: String::from_str("initramfs.cpio.gz"),
        }
    }
}

/// The wizard.
#[derive(Debug, Clone)]
pub struct App {
    pub screen: Screen,
    pub config: BuildConfig,
    pub mode: WizardMode,
    pub should_quit: bool,
    pub language_screen: LanguageScreen,
    pub image_screen: ImageScreen,
    pub arch_screen: ArchScreen,
    pub inject_screen: InjectScreen,
    pub init_screen: InitScreen,
    pub compress_screen: CompressScreen,
    pub build_progress: Option<String>,
    pub build_error: Option<String>,
    pub validation_error: Option<String>,
}

/// The screen that follows `screen`. The quick mode goes from the image
/// straight to the summary. Nothing follows the building screen.
pub open spec fn next_of(screen: Screen, mode: WizardMode) -> Screen {
    match screen {
        Screen::Language => Screen::Image,
        Screen::Image => match mode {
            WizardMode::Quick => Screen::Summary,
            WizardMode::Advanced => Screen::Architecture,
        },
        Screen::Architecture => Screen::Inject,
        Screen::Inject => Screen::Init,
        Screen::Init => Screen::Compression,
        Screen::Compression => Screen::Summary,
        Screen::Summary => Screen::Building,
        Screen::Building => Screen::Building,
    }
}

/// The screen that `screen` came from. The quick mode goes from the summary
/// straight back to the image. Nothing comes before the first screen.
pub open spec fn prev_of(screen: Screen, mode: WizardMode) -> Screen {
    match screen {
        Screen::Language => Screen::Language,
        Screen::Image => Screen::Language,
        Screen::Architecture => Screen::Image,
        Screen::Inject => Screen::Architecture,
        Screen::Init => Screen::Inject,
        Screen::Compression => Screen::Init,
        Screen::Summary => match mode {
            WizardMode::Quick => Screen::Image,
            WizardMode::Advanced => Screen::Compression,
        },
        Screen::Building => Screen::Summary,
    }
}

/// Whether a text names no image: it is empty but for white space.
pub open spec fn image_missing(text: Seq<char>) -> bool {
    trimmed_text(text).len() == 0
}

/// Whether the injections are those of the list, in its order.
pub open spec fn injections_of(injections: Seq<Injection>, items: Seq<(String, String)>) -> bool {
    &&& injections.len() == items.len()
    &&& forall|i: int|
        0 <= i < items.len() ==> (#[trigger] injections[i]).src@ == items[i].0@ && injections[i].dest@
            == items[i].1@
}

/// Whether the mode is the choice of the init screen.
pub open spec fn init_mode_of(mode: InitMode, screen: InitScreen) -> bool {
    if screen.selected == 0 {
        mode is Default
    } else {
        mode matches InitMode::CustomFile(path) && path@ == screen.path_input@
    }
}

impl App {
    /// Every screen has one of its options selected.
    pub open spec fn well_formed(&self) -> bool {
        &&& self.language_screen.well_formed()
        &&& self.arch_screen.well_formed()
        &&& self.inject_screen.well_formed()
        &&& self.init_screen.well_formed()
        &&& self.compress_screen.well_formed()
    }

    /// Whether every screen has one of its options selected.
    pub fn is_well_formed(&self) -> (ok: bool)
        ensures
            ok == self.well_formed(),
    {
        let language = self.language_screen.selected < self.language_screen.presets.len() && (
        self.language_screen.version_selected == 0 || self.language_screen.version_selected
            < self.language_screen.presets[self.language_screen.selected].versions.len());
        let inject = self.inject_screen.edit_field < 2 && (self.inject_screen.selected == 0
            || self.inject_screen.selected < self.inject_screen.items.len());
        language && self.arch_screen.selected < 2 && inject && self.init_screen.selected < 2
            && self.compress_screen.selected < 3
    }

    /// Whether the wizard is as it is made on the machine `machine`: at its
    /// first screen, in quick mode, with nothing chosen but the machine's
    /// architecture, and every screen as it is made.
    pub open spec fn is_fresh(&self, machine: Seq<char>) -> bool {
        &&& self.screen == Screen::Language
        &&& self.mode == WizardMode::Quick
        &&& !self.should_quit
        &&& self.config.is_fresh(machine)
        &&& self.language_screen.is_fresh()
        &&& self.image_screen.is_fresh()
        &&& self.arch_screen.is_fresh(host_arch(machine))
        &&& self.inject_screen.is_fresh()
        &&& self.init_screen.is_fresh()
        &&& self.compress_screen.is_fresh()
        &&& self.build_progress is None
        &&& self.build_error is None
        &&& self.validation_error is None
    }

    /// The wizard at its first screen, in quick mode, on the machine
    /// `machine`.
    pub fn new(machine: &str) -> (app: Self)
        ensures
            app.is_fresh(machine@),
            app.well_formed(),
    {
        let config = BuildConfig::for_machine(machine);
        let arch_screen = ArchScreen::new_with_default(config.arch.as_str());
        App {
            screen: Screen::Language,
            config,
            mode: WizardMode::Quick,
            should_quit: false,
            language_screen: LanguageScreen::new(),
            image_screen: ImageScreen::new(),
            arch_screen,
            inject_screen: InjectScreen::new(),
            init_screen: InitScreen::new(),
            compress_screen: CompressScreen::new(),
            build_progress: None,
            build_error: None,
            validation_error: None,
        }
    }

    /// What entering the current screen does: the image screen and the
    /// architecture screen show what has been chosen.
    pub open spec fn was_sync_screen_on_enter(before: Self, after: Self) -> bool {
        match before.screen {
            Screen::Image => after == (App { image_screen: after.image_screen, ..before })
                && ImageScreen::was_sync_from_config(
                before.image_screen,
                after.image_screen,
                before.config.image@,
            ),
            Screen::Architecture => after == (App { arch_screen: after.arch_screen, ..before })
                && ArchScreen::was_sync_from_config(
                before.arch_screen,
                after.arch_screen,
                before.config.arch@,
            ),
            _ => after == before,
        }
    }

    /// Lets the current screen show what has been chosen.
    pub fn sync_screen_on_enter(&mut self)
        ensures
            Self::was_sync_screen_on_enter(*old(self), *final(self)),
            old(self).well_formed() ==> final(self).well_formed(),
    {
        match self.screen {
            Screen::Image => {
                self.image_screen.sync_from_config(self.config.image.as_str());
            },
            Screen::Architecture => {
                self.arch_screen.sync_from_config(self.config.arch.as_str());
            },
            _ => {},
        }
    }

    /// What leaving the current screen does: its choice is taken over.
    pub open spec fn was_sync_screen_on_exit(before: Self, after: Self) -> bool {
        match before.screen {
            Screen::Image => after == (App {
                config: BuildConfig { image: after.config.image, ..before.config },
                ..before
            }) && after.config.image@ == trimmed_text(before.image_screen.input@),
            Screen::Architecture => after == (App {
                config: BuildConfig { arch: after.config.arch, ..before.config },
                ..before
            }) && after.config.arch@ == before.arch_screen.options@[before.arch_screen.selected as int]@,
            Screen::Inject => after == (App {
                config: BuildConfig { injections: after.config.injections, ..before.config },
                ..before
            }) && injections_of(after.config.injections@, before.inject_screen.items@),
            Screen::Init => after == (App {
                config: BuildConfig { init_mode: after.config.init_mode, ..before.config },
                ..before
            }) && init_mode_of(after.config.init_mode, before.init_screen),
            Screen::Compression => after == (App {
                config: BuildConfig {
                    compression: before.compress_screen.options@[before.compress_screen.selected as int].0,
                    ..before.config
                },
                ..before
            }),
            _ => after == before,
        }
    }

    /// Takes the choice of the current screen over.
    pub fn sync_screen_on_exit(&mut self)
        requires
            old(self).well_formed(),
        ensures
            Self::was_sync_screen_on_exit(*old(self), *final(self)),
            final(self).well_formed(),
    {
        match self.screen {
            Screen::Image => {
                self.config.image = self.image_screen.sync_to_config();
            },
            Screen::Architecture => {
                self.config.arch = String::from_str(self.arch_screen.get_selected());
            },
            Screen::Inject => {
                self.config.injections = self.inject_screen.get_injections();
            },
            Screen::Init => {
                self.config.init_mode = self.init_screen.get_init_mode();
            },
            Screen::Compression => {
                self.config.compression = self.compress_screen.get_selected();
            },
            _ => {},
        }
    }

    /// Whether an image has been chosen.
    pub fn is_config_valid(&self) -> (valid: bool)
        ensures
            valid == !image_missing(self.config.image@),
    {
        !trim_text(self.config.image.as_str()).as_str().is_empty()
    }

    /// What checking the current screen does: the image screen needs an image
    /// typed, the summary needs one chosen, and a screen that lacks it shows
    /// why.
    pub open spec fn was_validate_current_screen(before: Self, after: Self, ok: bool) -> bool {
        &&& after == (App { validation_error: after.validation_error, ..before })
        &&& match before.screen {
            Screen::Image => ok == !image_missing(before.image_screen.input@) && (if ok {
                after.validation_error is None
            } else {
                after.validation_error matches Some(text) && text@ == "Image cannot be empty"@
            }),
            Screen::Summary => ok == !image_missing(before.config.image@) && (if ok {
                after.validation_error is None
            } else {
                after.validation_error matches Some(text) && text@
                    == "Configuration invalid: image is required"@
            }),
            _ => ok && after.validation_error is None,
        }
    }

    /// Checks the current screen before it is left.
    pub fn validate_current_screen(&mut self) -> (ok: bool)
        ensures
            Self::was_validate_current_screen(*old(self), *final(self), ok),
    {
        self.validation_error = None;
        match self.screen {
            Screen::Image => {
                if trim_text(self.image_screen.input.as_str()).as_str().is_empty() {
                    self.validation_error = Some(String::from_str("Image cannot be empty"));
                    return false;
                }
            },
            Screen::Summary => {
                if !self.is_config_valid() {
                    self.validation_error = Some(
                        String::from_str("Configuration invalid: image is required"),
                    );
                    return false;
                }
            },
            _ => {},
        }
        true
    }
}

/// The index of the version that counts as selected among `count` versions:
/// the selection, or the last version where the selection lies behind it.
pub open spec fn clamped_version(selected: int, count: int) -> int {
    if selected < count - 1 {
        selected
    } else {
        count - 1
    }
}

/// The arguments that name the injections on the command line, one
/// `--inject` for each, in their order.
pub open spec fn inject_arguments(injections: Seq<Injection>) -> Seq<char>
    decreases injections.len(),
{
    if injections.len() == 0 {
        Seq::empty()
    } else {
        inject_arguments(injections.drop_last()) + " \\\n  --inject "@ + injections.last().src@
            + ":"@ + injections.last().dest@
    }
}

/// The argument that names the init script on the command line, if the
/// wizard has one.
pub open spec fn init_argument(mode: InitMode) -> Seq<char> {
    match mode {
        InitMode::Default => Seq::empty(),
        InitMode::CustomFile(path) => " \\\n  --init "@ + path@,
    }
}

/// The command line that does what the wizard would do.
pub open spec fn cli_command(config: BuildConfig) -> Seq<char> {
    "initramfs-builder build "@ + config.image@ + inject_arguments(config.injections@)
        + init_argument(config.init_mode) + " \\\n  --platform-arch "@ + config.arch@
        + " \\\n  -c "@ + config.compression.name() + " \\\n  -o "@ + config.output@
}

impl App {
    /// What leaving the language screen does: the image of the selected
    /// version is chosen; a runtime without versions leaves the image as it
    /// is.
    pub open spec fn was_update_image_from_language(before: Self, after: Self) -> bool {
        let versions = before.language_screen.presets@[before.language_screen.selected as int].versions@;
        if versions.len() == 0 {
            after == before
        } else {
            after == (App {
                config: BuildConfig { image: after.config.image, ..before.config },
                ..before
            }) && after.config.image@ == versions[clamped_version(
                before.language_screen.version_selected as int,
                versions.len() as int,
            )].1@
        }
    }

    /// Chooses the image of the selected version of the selected runtime.
    pub fn update_image_from_language(&mut self)
        requires
            old(self).language_screen.well_formed(),
        ensures
            Self::was_update_image_from_language(*old(self), *final(self)),
    {
        let preset = &self.language_screen.presets[self.language_screen.selected];
        let count = preset.versions.len();
        if count > 0 {
            let index = if self.language_screen.version_selected < count - 1 {
                self.language_screen.version_selected
            } else {
                count - 1
            };
            self.config.image = String::from_str(preset.versions[index].1);
        }
    }

    /// What going on from a screen does, once its choice is taken over: the
    /// next screen is shown, and the language screen chooses its image on the
    /// way.
    pub open spec fn was_advanced(before: Self, after: Self) -> bool {
        &&& after.screen == next_of(before.screen, before.mode)
        &&& if before.screen == Screen::Language {
            Self::was_update_image_from_language(before, App { screen: before.screen, ..after })
        } else {
            after == (App { screen: after.screen, ..before })
        }
    }

    /// What `next_screen` does: the choice of the screen is taken over, the
    /// next screen is shown, and it shows what has been chosen.
    pub open spec fn was_next_screen(before: Self, after: Self) -> bool {
        exists|left: Self, shown: Self|
            Self::was_sync_screen_on_exit(before, left) && Self::was_advanced(left, shown)
                && Self::was_sync_screen_on_enter(shown, after)
    }

    /// Goes on to the next screen.
    pub fn next_screen(&mut self)
        requires
            old(self).well_formed(),
        ensures
            Self::was_next_screen(*old(self), *final(self)),
            final(self).screen == next_of(old(self).screen, old(self).mode),
            final(self).mode == old(self).mode,
            final(self).should_quit == old(self).should_quit,
            final(self).well_formed(),
    {
        self.sync_screen_on_exit();
        let ghost left = *self;
        let ghost mut chosen = *self;
        match self.screen {
            Screen::Language => {
                self.update_image_from_language();
                proof {
                    chosen = *self;
                }
                self.screen = Screen::Image;
            },
            Screen::Image => {
                self.screen = match self.mode {
                    WizardMode::Quick => Screen::Summary,
                    WizardMode::Advanced => Screen::Architecture,
                };
            },
            Screen::Architecture => {
                self.screen = Screen::Inject;
            },
            Screen::Inject => {
                self.screen = Screen::Init;
            },
            Screen::Init => {
                self.screen = Screen::Compression;
            },
            Screen::Compression => {
                self.screen = Screen::Summary;
            },
            Screen::Summary => {
                self.screen = Screen::Building;
            },
            Screen::Building => {},
        }
        let ghost shown = *self;
        proof {
            if left.screen == Screen::Language {
                assert((App { screen: left.screen, ..shown }) == chosen);
            }
            assert(Self::was_advanced(left, shown));
        }
        self.sync_screen_on_enter();
        assert(Self::was_next_screen(*old(self), *self));
    }

    /// The wizard as `prev_screen` finds it when it turns to the screen
    /// before: no complaint is shown any more.
    pub open spec fn turned_back(before: Self) -> Self {
        App { validation_error: None, screen: prev_of(before.screen, before.mode), ..before }
    }

    /// Goes back to the screen before, which shows what has been chosen.
    pub fn prev_screen(&mut self)
        ensures
            Self::was_sync_screen_on_enter(Self::turned_back(*old(self)), *final(self)),
            old(self).well_formed() ==> final(self).well_formed(),
    {
        self.validation_error = None;
        self.screen = match self.screen {
            Screen::Language => Screen::Language,
            Screen::Image => Screen::Language,
            Screen::Architecture => Screen::Image,
            Screen::Inject => Screen::Architecture,
            Screen::Init => Screen::Inject,
            Screen::Compression => Screen::Init,
            Screen::Summary => match self.mode {
                WizardMode::Quick => Screen::Image,
                WizardMode::Advanced => Screen::Compression,
            },
            Screen::Building => Screen::Summary,
        };
        self.sync_screen_on_enter();
    }

    /// The wizard as `enter_advanced_mode` finds it when it turns to the
    /// architecture screen.
    pub open spec fn turned_advanced(before: Self) -> Self {
        App { mode: WizardMode::Advanced, screen: Screen::Architecture, ..before }
    }

    /// Turns to the advanced mode, at its first screen, the architecture.
    pub fn enter_advanced_mode(&mut self)
        ensures
            Self::was_sync_screen_on_enter(Self::turned_advanced(*old(self)), *final(self)),
            old(self).well_formed() ==> final(self).well_formed(),
    {
        self.mode = WizardMode::Advanced;
        self.screen = Screen::Architecture;
        self.sync_screen_on_enter();
    }

    /// The command line that does what the wizard would do.
    pub fn generate_cli_command(&self) -> (command: String)
        ensures
            command@ == cli_command(self.config),
    {
        let mut command = String::from_str("initramfs-builder build ");
        command.append(self.config.image.as_str());
        let ghost head = command@;
        let mut i: usize = 0;
        assert(self.config.injections@.take(0) =~= Seq::<Injection>::empty());
        assert(command@ =~= head + inject_arguments(self.config.injections@.take(0)));
        while i < self.config.injections.len()
            invariant
                i <= self.config.injections.len(),
                command@ == head + inject_arguments(self.config.injections@.take(i as int)),
            decreases self.config.injections.len() - i,
        {
            let injection = &self.config.injections[i];
            command.append(" \\\n  --inject ");
            command.append(injection.src.as_str());
            command.append(":");
            command.append(injection.dest.as_str());
            proof {
                let next = self.config.injections@.take(i + 1);
                assert(next.drop_last() =~= self.config.injections@.take(i as int));
                assert(next.last() == self.config.injections@[i as int]);
                assert(command@ =~= head + inject_arguments(next));
            }
            i += 1;
        }
        assert(self.config.injections@.take(i as int) =~= self.config.injections@);
        match &self.config.init_mode {
            InitMode::CustomFile(path) => {
                command.append(" \\\n  --init ");
                command.append(path.as_str());
            },
            InitMode::Default => {},
        }
        command.append(" \\\n  --platform-arch ");
        command.append(self.config.arch.as_str());
        command.append(" \\\n  -c ");
        command.append(self.config.compression.to_string().as_str());
        command.append(" \\\n  -o ");
        command.append(self.config.output.as_str());
        assert(command@ =~= cli_command(self.config));
        command
    }

    /// The recipe that the wizard has collected: its image, for linux on its
    /// architecture, anonymously, with its injections made executable, its
    /// init and its compression.
    pub fn recipe(&self) -> (builder: InitramfsBuilder)
        ensures
            builder@.image == Some(self.config.image@),
            builder@.compression == self.config.compression,
            builder@.exclude_patterns == Seq::<Seq<char>>::empty(),
            builder@.platform_os == "linux"@,
            builder@.platform_arch == self.config.arch@,
            builder@.auth is Anonymous,
            builder@.init_script == (match self.config.init_mode {
                InitMode::Default => None,
                InitMode::CustomFile(path) => Some(path@),
            }),
            builder@.inject_files.len() == self.config.injections@.len(),
            forall|i: int|
                0 <= i < self.config.injections@.len() ==> {
                    &&& (#[trigger] builder@.inject_files[i]).src@ == self.config.injections@[i].src@
                    &&& builder@.inject_files[i].dest@ == self.config.injections@[i].dest@
                    &&& builder@.inject_files[i].executable
                },
    {
        let mut builder = InitramfsBuilder::new().image(self.config.image.as_str()).compression(
            self.config.compression,
        ).platform("linux", self.config.arch.as_str()).auth(RegistryAuth::Anonymous);
        let mut i: usize = 0;
        while i < self.config.injections.len()
            invariant
                i <= self.config.injections.len(),
                builder@.image == Some(self.config.image@),
                builder@.compression == self.config.compression,
                builder@.exclude_patterns == Seq::<Seq<char>>::empty(),
                builder@.platform_os == "linux"@,
                builder@.platform_arch == self.config.arch@,
                builder@.auth is Anonymous,
                builder@.init_script is None,
                builder@.inject_files.len() == i,
                forall|j: int|
                    0 <= j < i ==> {
                        &&& (#[trigger] builder@.inject_files[j]).src@
                            == self.config.injections@[j].src@
                        &&& builder@.inject_files[j].dest@ == self.config.injections@[j].dest@
                        &&& builder@.inject_files[j].executable
                    },
            decreases self.config.injections.len() - i,
        {
            let injection = &self.config.injections[i];
            let ghost before = builder@.inject_files;
            builder = builder.inject(injection.src.as_str(), injection.dest.as_str());
            proof {
                assert forall|j: int| 0 <= j < i + 1 implies {
                    &&& (#[trigger] builder@.inject_files[j]).src@
                        == self.config.injections@[j].src@
                    &&& builder@.inject_files[j].dest@ == self.config.injections@[j].dest@
                    &&& builder@.inject_files[j].executable
                } by {
                    if j < i {
                        assert(builder@.inject_files[j] == builder@.inject_files.drop_last()[j]);
                        assert(builder@.inject_files[j] == before[j]);
                    } else {
                        assert(builder@.inject_files[j] == builder@.inject_files.last());
                    }
                }
            }
            i += 1;
        }
        match &self.config.init_mode {
            InitMode::CustomFile(path) => builder.init_script(path.as_str()),
            InitMode::Default => builder,
        }
    }

    /// What the wizard shows while the build runs.
    pub fn start_build(&mut self)
        ensures
            *final(self) == (App { build_progress: final(self).build_progress, ..*old(self) }),
            final(self).build_progress matches Some(text) && text@ == "Building initramfs..."@,
    {
        self.build_progress = Some(String::from_str("Building initramfs..."));
    }

    /// What the wizard shows when the build has failed with `detail`.
    pub fn fail_build(&mut self, detail: &str)
        ensures
            *final(self) == (App { build_error: final(self).build_error, ..*old(self) }),
            final(self).build_error matches Some(text) && text@ == "Build failed: "@ + detail@,
    {
        let mut text = String::from_str("Build failed: ");
        text.append(detail);
        self.build_error = Some(text);
    }
}

} // verus!
