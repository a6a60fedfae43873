//! Changes to the settings: the favorite commands, the command that is
//! shown, and the return to the settings of a first run.
//!
//! Each operation on the favorites says in its result whether the settings
//! have changed, so that the caller knows when to write them down.

use crate::filter::{search_visible, search_matches};
use crate::settings::{FavoriteCommand, FavoriteView, Settings};
use crate::text::{chars_of, lowercase, string_of, to_lower, trim_chars, trimmed};
use crate::viewer::LogsApp;
use vstd::prelude::*;

verus! {

/// Whether a favorite is listed under a search text: every one is where
/// nothing is searched for; else one that has the text in its name or in its
/// command, whatever the case of the letters.
pub open spec fn favorite_listed(search: Seq<char>, favorite: FavoriteView) -> bool {
    search.len() == 0 || search_visible(
        lowercase(search),
        lowercase(favorite.name),
        lowercase(favorite.command),
    )
}

/// Which favorite is being edited after the one at `removed` has left the
/// list: none where it was the one; the same one, now one place lower, where
/// it stood behind; else what it was.
pub open spec fn editing_without(editing: Option<usize>, removed: usize) -> Option<usize> {
    match editing {
        Some(index) => if index == removed {
            None
        } else if index > removed {
            Some((index - 1) as usize)
        } else {
            Some(index)
        },
        None => None,
    }
}

/// Which favorite is being edited after the one at `removed` has left the
/// list.
pub fn editing_after_removal(editing: Option<usize>, removed: usize) -> (now_editing: Option<usize>)
    ensures
        now_editing == editing_without(editing, removed),
{
    match editing {
        Some(index) => if index == removed {
            None
        } else if index > removed {
            Some(index - 1)
        } else {
            Some(index)
        },
        None => None,
    }
}

impl LogsApp {
    /// Nothing but the settings differs between `self` and `other`.
    pub open spec fn same_but_settings(&self, other: &LogsApp) -> bool {
        &&& self.same_filter(other)
        &&& self.lifecycle() == other.lifecycle()
    }

    /// Nothing but the favorite commands differs between `self` and `other`.
    pub open spec fn same_but_favorites(&self, other: &LogsApp) -> bool {
        &&& self.same_but_settings(other)
        &&& self.settings.log_command == other.settings.log_command
        &&& self.settings.refresh_interval == other.settings.refresh_interval
    }

    /// Keeps a command under a name, behind the ones kept before.
    pub fn add_favorite_command(&mut self, name: String, command: String)
        ensures
            final(self).settings.favorites() == old(self).settings.favorites().push(
                FavoriteView { name: name@, command: command@ },
            ),
            final(self).same_but_favorites(old(self)),
    {
        self.settings.favorite_commands.push(FavoriteCommand { name, command });
    }

    /// Drops the favorite at `index`; the ones behind it move up. An index
    /// beyond the list changes nothing. Says whether anything changed.
    pub fn remove_favorite_command(&mut self, index: usize) -> (changed: bool)
        ensures
            changed == (index < old(self).settings.favorites().len()),
            changed ==> final(self).settings.favorites() == old(self).settings.favorites().remove(
                index as int,
            ),
            !changed ==> final(self).settings.favorites() == old(self).settings.favorites(),
            final(self).same_but_favorites(old(self)),
    {
        if index < self.settings.favorite_commands.len() {
            self.settings.favorite_commands.remove(index);
            true
        } else {
            false
        }
    }

    /// Gives the favorite at `index` a new name and a new command. An index
    /// beyond the list changes nothing. Says whether anything changed.
    pub fn update_favorite_command(&mut self, index: usize, name: String, command: String) -> (changed:
        bool)
        ensures
            changed == (index < old(self).settings.favorites().len()),
            changed ==> final(self).settings.favorites() == old(self).settings.favorites().update(
                index as int,
                FavoriteView { name: name@, command: command@ },
            ),
            !changed ==> final(self).settings.favorites() == old(self).settings.favorites(),
            final(self).same_but_favorites(old(self)),
    {
        if index < self.settings.favorite_commands.len() {
            self.settings.favorite_commands.set(index, FavoriteCommand { name, command });
            true
        } else {
            false
        }
    }

    /// Makes `command` the one whose output is shown, and restarts the
    /// collection with it. Gives the command for which the caller is to
    /// launch a producer.
    pub fn apply_favorite_command(&mut self, command: String) -> (launch: String)
        ensures
            final(self).settings.log_command@ == command@,
            launch@ == command@,
            final(self).settings.refresh_interval == old(self).settings.refresh_interval,
            final(self).settings.favorite_commands == old(self).settings.favorite_commands,
            final(self).lifecycle() == old(self).lifecycle().restarted(),
            final(self).same_filter(old(self)),
    {
        self.settings.log_command = command;
        self.restart_log_collection()
    }

    /// Puts the settings back to what a first run has, and restarts the
    /// collection. Gives the command for which the caller is to launch a
    /// producer.
    pub fn reset_settings(&mut self) -> (launch: String)
        ensures
            final(self).settings.log_command@ == "journalctl -f"@,
            final(self).settings.refresh_interval == 1000,
            final(self).settings.favorites() == Seq::<FavoriteView>::empty(),
            launch@ == "journalctl -f"@,
            final(self).lifecycle() == old(self).lifecycle().restarted(),
            final(self).same_filter(old(self)),
    {
        self.settings = Settings::default();
        self.restart_log_collection()
    }

    /// Keeps the command that is shown as a favorite under `name`, without
    /// the white space around the name. A name that is nothing but white
    /// space keeps nothing. Says whether anything changed.
    pub fn save_current_as_favorite(&mut self, name: &str) -> (changed: bool)
        ensures
            changed == (trimmed(name@).len() > 0),
            changed ==> final(self).settings.favorites() == old(self).settings.favorites().push(
                FavoriteView { name: trimmed(name@), command: old(self).settings.log_command@ },
            ),
            !changed ==> final(self).settings.favorites() == old(self).settings.favorites(),
            final(self).same_but_favorites(old(self)),
    {
        let kept = trim_chars(&chars_of(name));
        if kept.len() == 0 {
            return false;
        }
        let command = self.settings.log_command.clone();
        self.add_favorite_command(string_of(&kept), command);
        true
    }

    /// Gives the favorite at `index` the name and the command that were
    /// typed, each without the white space around it. Nothing changes where
    /// one of them is nothing but white space, or the index is beyond the
    /// list. Says whether anything changed.
    pub fn revise_favorite(&mut self, index: usize, name: &str, command: &str) -> (changed: bool)
        ensures
            changed == (trimmed(name@).len() > 0 && trimmed(command@).len() > 0 && index < old(
                self,
            ).settings.favorites().len()),
            changed ==> final(self).settings.favorites() == old(self).settings.favorites().update(
                index as int,
                FavoriteView { name: trimmed(name@), command: trimmed(command@) },
            ),
            !changed ==> final(self).settings.favorites() == old(self).settings.favorites(),
            final(self).same_but_favorites(old(self)),
    {
        let new_name = trim_chars(&chars_of(name));
        let new_command = trim_chars(&chars_of(command));
        if new_name.len() == 0 || new_command.len() == 0 {
            return false;
        }
        self.update_favorite_command(index, string_of(&new_name), string_of(&new_command))
    }

    /// The places of the favorites that are listed under a search text, in
    /// the order of the list.
    pub fn matching_favorites(&self, search: &str) -> (places: Vec<usize>)
        ensures
            forall|k: int|
                0 <= k < places@.len() ==> (#[trigger] places@[k]) < self.settings.favorites().len()
                    && favorite_listed(search@, self.settings.favorites()[places@[k] as int]),
            forall|k: int, l: int| 0 <= k < l < places@.len() ==> places@[k] < places@[l],
            forall|i: int|
                0 <= i < self.settings.favorites().len() && favorite_listed(
                    search@,
                    #[trigger] self.settings.favorites()[i],
                ) ==> places@.contains(i as usize),
    {
        let needle: Vec<char> = if search.is_empty() {
            Vec::new()
        } else {
            chars_of(to_lower(search).as_str())
        };
        let count: usize = self.settings.favorite_commands.len();
        let mut places: Vec<usize> = Vec::new();
        let mut i: usize = 0;
        while i < count
            invariant
                i <= count == self.settings.favorites().len(),
                count == self.settings.favorite_commands@.len(),
                search@.len() > 0 ==> needle@ == lowercase(search@),
                search@.len() == 0 ==> needle@.len() == 0,
                forall|k: int|
                    0 <= k < places@.len() ==> (#[trigger] places@[k]) < i && favorite_listed(
                        search@,
                        self.settings.favorites()[places@[k] as int],
                    ),
                forall|k: int, l: int| 0 <= k < l < places@.len() ==> places@[k] < places@[l],
                forall|j: int|
                    0 <= j < i && favorite_listed(search@, #[trigger] self.settings.favorites()[j])
                        ==> places@.contains(j as usize),
            decreases count - i,
        {
            let favorite = &self.settings.favorite_commands[i];
            let listed: bool = if needle.len() == 0 {
                true
            } else {
                search_matches(
                    &needle,
                    &chars_of(to_lower(favorite.name.as_str()).as_str()),
                    &chars_of(to_lower(favorite.command.as_str()).as_str()),
                )
            };
            if listed {
                let ghost before = places@;
                places.push(i);
                assert forall|j: int|
                    0 <= j < i + 1 && favorite_listed(
                        search@,
                        #[trigger] self.settings.favorites()[j],
                    ) implies places@.contains(j as usize) by {
                    if j < i {
                        let k = choose|k: int| 0 <= k < before.len() && before[k] == j as usize;
                        assert(places@[k] == j as usize);
                    } else {
                        assert(places@[places@.len() - 1] == i);
                    }
                }
            }
            i = i + 1;
        }
        places
    }
}

} // verus!
