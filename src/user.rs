use vstd::prelude::*;
use crate::library::Library;
use crate::machine::Machine;
use crate::selection::Selections;
use crate::settings::{Color, Settings};

verus! {

/// Everything stored for a user besides the credentials.
pub struct UserData {
    pub favorite_color: Color,
    pub machines: Vec<Machine>,
    pub library: Library,
    pub selections: Selections,
    pub settings: Settings,
}

/// A user account.
pub struct User {
    pub username: String,
    pub password: String,
    pub email: String,
    pub created_at: Option<String>,
    pub last_login: Option<String>,
    pub user_data: UserData,
}

/// The text the machine picker shows.
pub open spec fn selection_label(machines: Seq<Machine>, selected: Option<usize>) -> Seq<char> {
    if machines.len() == 0 {
        "No Machines Created"@
    } else {
        match selected {
            None => "Select a Machine"@,
            Some(i) => machines[i as int].name@,
        }
    }
}

impl UserData {
    /// The selection, if any, names a machine of the list.
    pub open spec fn selection_in_range(self) -> bool {
        self.selections.selected_machine matches Some(i) ==> i < self.machines@.len()
    }

    /// An empty data set: no machines, an empty library, nothing selected.
    pub open spec fn is_fresh(self) -> bool {
        &&& self.favorite_color.is_transparent()
        &&& self.machines@.len() == 0
        &&& self.library.tools@.len() == 0
        &&& self.library.holders@.len() == 0
        &&& self.selections.selected_machine is None
        &&& !self.settings.dark_mode
        &&& !self.settings.show_password
        &&& self.settings.color1.is_transparent()
        &&& self.settings.color2.is_transparent()
        &&& self.settings.color3.is_transparent()
    }

    /// The text of the machine picker: a prompt while there is no machine or
    /// none is selected, else the name of the selected machine.
    pub fn machine_selection_label(&self) -> (r: String)
        requires
            self.machines@.len() > 0 ==> self.selection_in_range(),
        ensures
            r@ == selection_label(self.machines@, self.selections.selected_machine),
    {
        if self.machines.len() == 0 {
            String::from_str("No Machines Created")
        } else {
            match self.selections.selected_machine {
                None => String::from_str("Select a Machine"),
                Some(i) => self.machines[i].name.clone(),
            }
        }
    }

    /// Appends `machine` to the list and selects it.
    pub fn add_machine(&mut self, machine: Machine)
        ensures
            final(self).machines@ == old(self).machines@.push(machine),
            final(self).selections.selected_machine == Some(old(self).machines@.len() as usize),
            final(self).favorite_color == old(self).favorite_color,
            final(self).library == old(self).library,
            final(self).settings == old(self).settings,
    {
        self.machines.push(machine);
        let index = self.machines.len() - 1;
        self.selections.selected_machine = Some(index);
    }

    /// Takes the machine at `index` out of the list. A selection of that
    /// machine is cleared; a selection of a later one moves down with it.
    pub fn delete_machine(&mut self, index: usize)
        requires
            index < old(self).machines@.len(),
        ensures
            final(self).machines@ == old(self).machines@.remove(index as int),
            final(self).selections.selected_machine == (match old(
                self,
            ).selections.selected_machine {
                None => None,
                Some(s) => if s == index {
                    None
                } else if s > index {
                    Some((s - 1) as usize)
                } else {
                    Some(s)
                },
            }),
            final(self).favorite_color == old(self).favorite_color,
            final(self).library == old(self).library,
            final(self).settings == old(self).settings,
    {
        self.machines.remove(index);
        if let Some(selected) = self.selections.selected_machine {
            if selected == index {
                self.selections.selected_machine = None;
            } else if selected > index {
                self.selections.selected_machine = Some(selected - 1);
            }
        }
    }
}

impl Default for UserData {
    fn default() -> (r: Self)
        ensures
            r.is_fresh(),
    {
        UserData {
            favorite_color: Color::default(),
            machines: Vec::new(),
            library: Library::default(),
            selections: Selections::default(),
            settings: Settings::default(),
        }
    }
}

impl User {
    /// No credentials, no dates, and fresh data.
    pub open spec fn is_fresh(self) -> bool {
        &&& self.username@ == Seq::<char>::empty()
        &&& self.password@ == Seq::<char>::empty()
        &&& self.email@ == Seq::<char>::empty()
        &&& self.created_at is None
        &&& self.last_login is None
        &&& self.user_data.is_fresh()
    }
}

impl Default for User {
    fn default() -> (r: Self)
        ensures
            r.is_fresh(),
    {
        User {
            username: String::new(),
            password: String::new(),
            email: String::new(),
            created_at: None,
            last_login: None,
            user_data: UserData::default(),
        }
    }
}

} // verus!
