//! The settings and the course modules the downloader is configured with,
//! their defaults, and how a module is picked by name.
use vstd::prelude::*;

verus! {

/// A course module as configured.
pub struct Module {
    /// module name
    pub name: String,
    /// the order of the course on the website
    pub course_nth: u8,
    /// first week appears on top, defaults to true
    pub folder_order_ascending: bool,
    /// img used, defaults to "folder"
    pub img_alt: String,
    /// when the folders start, defaults to 1
    pub week_start: u8,
    /// name of materials tab, defaults to "Learning Materials"
    pub materials: String,
}

/// The settings as they are read.
pub struct SettingsRead {
    /// defaults to true
    pub order_ascending: bool,
    pub path: String,
    pub bin: String,
    pub temp_download_folder: String,
}

/// The settings the downloader works with: the paths of the download
/// directory, of the browser binary and of the temporary download folder.
pub struct Settings {
    pub order_ascending: bool,
    pub path: String,
    pub bin: String,
    pub temp_download_folder: String,
}

impl Settings {
    /// The settings taken from what was read, field by field.
    pub fn from(sr: &SettingsRead) -> (s: Settings)
        ensures
            s.order_ascending == sr.order_ascending,
            s.path@ == sr.path@,
            s.bin@ == sr.bin@,
            s.temp_download_folder@ == sr.temp_download_folder@,
    {
        Settings {
            order_ascending: sr.order_ascending,
            path: sr.path.clone(),
            bin: sr.bin.clone(),
            temp_download_folder: sr.temp_download_folder.clone(),
        }
    }
}

/// Default of `folder_order_ascending` and `order_ascending`.
pub fn default_true() -> (b: bool)
    ensures
        b,
{
    true
}

/// Default of `img_alt`.
pub fn default_img_alt() -> (s: String)
    ensures
        s@ == "folder"@,
{
    String::from_str("folder")
}

/// Default of `week_start`.
pub fn default_week_start() -> (w: u8)
    ensures
        w == 1,
{
    1
}

/// Default of `materials`.
pub fn default_materials() -> (s: String)
    ensures
        s@ == "Learning Materials"@,
{
    String::from_str("Learning Materials")
}

/// Finds the module named `name`: the index of the first module with that
/// name, or `None` when no module has it.
pub fn find_module(modules: &Vec<Module>, name: &str) -> (r: Option<usize>)
    ensures
        r matches Some(i) ==> i < modules@.len() && modules@[i as int].name@ == name@
            && forall|j: int| 0 <= j < i ==> modules@[j].name@ != name@,
        r is None ==> forall|j: int| 0 <= j < modules@.len() ==> modules@[j].name@ != name@,
{
    let key = String::from_str(name);
    let mut i: usize = 0;
    while i < modules.len()
        invariant
            i <= modules@.len(),
            key@ == name@,
            forall|j: int| 0 <= j < i ==> modules@[j].name@ != name@,
        decreases modules@.len() - i,
    {
        if modules[i].name == key {
            return Some(i);
        }
        i = i + 1;
    }
    None
}

} // verus!
