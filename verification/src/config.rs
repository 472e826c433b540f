use vstd::prelude::*;

verus! {

/// Application configuration: where the database, the log and the book data
/// live, plus the UI theme and settings.
#[derive(Debug)]
pub struct Config {
    pub database: String,
    pub log: String,
    pub book: BookData,
    pub theme: Theme,
    pub setting: Setting,
}

/// Where the imported books and their derived data are stored.
#[derive(Debug)]
pub struct BookData {
    pub info: String,
    pub dir: String,
    pub cover: String,
    pub resources: String,
}

#[derive(Debug)]
pub struct Theme {
    pub appearance: Appearance,
}

#[derive(Debug, Clone, Copy, PartialEq, Eq, Structural)]
pub enum Appearance {
    Light,
    Dark,
    System,
}

#[derive(Debug)]
pub struct Setting {
    pub sidebar: bool,
}

impl Default for Appearance {
    fn default() -> (r: Self)
        ensures
            r == Appearance::Light,
    {
        Appearance::Light
    }
}

impl Default for Theme {
    fn default() -> (r: Self)
        ensures
            r.appearance == Appearance::Light,
    {
        Theme { appearance: Appearance::Light }
    }
}

impl Default for BookData {
    fn default() -> (r: Self)
        ensures
            r.info@ == Seq::<char>::empty(),
            r.dir@ == Seq::<char>::empty(),
            r.cover@ == Seq::<char>::empty(),
            r.resources@ == Seq::<char>::empty(),
    {
        BookData {
            info: String::new(),
            dir: String::new(),
            cover: String::new(),
            resources: String::new(),
        }
    }
}

impl Default for Setting {
    /// The sidebar starts visible.
    fn default() -> (r: Self)
        ensures
            r.sidebar == true,
    {
        Setting { sidebar: true }
    }
}

impl Default for Config {
    fn default() -> (r: Self)
        ensures
            r.database@ == Seq::<char>::empty(),
            r.log@ == Seq::<char>::empty(),
            r.book.dir@ == Seq::<char>::empty(),
            r.theme.appearance == Appearance::Light,
            r.setting.sidebar == true,
    {
        Config {
            database: String::new(),
            log: String::new(),
            book: BookData::default(),
            theme: Theme::default(),
            setting: Setting::default(),
        }
    }
}

} // verus!
