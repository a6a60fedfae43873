//! What the viewer remembers between runs.

use vstd::prelude::*;

verus! {

/// A command kept under a name for later use.
#[derive(Debug)]
pub struct FavoriteCommand {
    pub name: String,
    pub command: String,
}

/// What a `FavoriteCommand` holds, as sequences of characters.
pub struct FavoriteView {
    pub name: Seq<char>,
    pub command: Seq<char>,
}

impl View for FavoriteCommand {
    type V = FavoriteView;

    open spec fn view(&self) -> FavoriteView {
        FavoriteView { name: self.name@, command: self.command@ }
    }
}

/// The command whose output is shown, how often the display is refreshed
/// (in milliseconds), and the favorite commands.
#[derive(Debug)]
pub struct Settings {
    pub log_command: String,
    pub refresh_interval: u64,
    pub favorite_commands: Vec<FavoriteCommand>,
}

impl Settings {
    /// The favorite commands, each as what it holds.
    pub open spec fn favorites(&self) -> Seq<FavoriteView> {
        self.favorite_commands@.map_values(|f: FavoriteCommand| f@)
    }
}

impl Clone for FavoriteCommand {
    fn clone(&self) -> (copy: Self)
        ensures
            copy@ == self@,
    {
        FavoriteCommand { name: self.name.clone(), command: self.command.clone() }
    }
}

impl Clone for Settings {
    fn clone(&self) -> (copy: Self)
        ensures
            copy.log_command@ == self.log_command@,
            copy.refresh_interval == self.refresh_interval,
            copy.favorites() == self.favorites(),
    {
        let mut favorites: Vec<FavoriteCommand> = Vec::new();
        let mut i: usize = 0;
        while i < self.favorite_commands.len()
            invariant
                i <= self.favorite_commands.len(),
                favorites@.map_values(|f: FavoriteCommand| f@) == self.favorites().take(i as int),
            decreases self.favorite_commands.len() - i,
        {
            let ghost before = favorites@.map_values(|f: FavoriteCommand| f@);
            favorites.push(self.favorite_commands[i].clone());
            assert(self.favorites().take(i + 1) =~= before.push(self.favorite_commands@[i as int]@));
            i = i + 1;
        }
        Settings {
            log_command: self.log_command.clone(),
            refresh_interval: self.refresh_interval,
            favorite_commands: favorites,
        }
    }
}

impl Default for Settings {
    /// Follows the system journal, refreshes once a second, and has no
    /// favorite commands.
    fn default() -> (settings: Self)
        ensures
            settings.log_command@ == "journalctl -f"@,
            settings.refresh_interval == 1000,
            settings.favorites() == Seq::<FavoriteView>::empty(),
    {
        let settings = Settings {
            log_command: "journalctl -f".to_owned(),
            refresh_interval: 1000,
            favorite_commands: Vec::new(),
        };
        settings
    }
}

} // verus!
