//! The application: the sales that were saved, the draft that the form
//! works on, and the screen that is shown.
use crate::common::Action;
use crate::hotkey::{hotkey_of, Hotkey, Key, Modifiers};
use crate::list;
use crate::sale;
use crate::sale::{following, next_id, Mode, Sale, SaleView};
use crate::text::{decimal, decimal_string};
use iced::widget::focus_next;
use iced::Task;
use std::collections::HashMap;
use vstd::prelude::*;
use vstd::string::*;

verus! {

broadcast use vstd::std_specs::hash::group_hash_axioms;

/// The screen that is shown: the list, or one sale in one mode. A sale that
/// was never saved has no id.
#[derive(Debug, Clone, Copy, PartialEq, Eq, Structural)]
pub enum Screen {
    List,
    Sale(Mode, Option<usize>),
}

/// What happened: a message of the list, a message of a screen of the sale
/// with the given id, or a hotkey.
#[derive(Debug, Clone)]
pub enum Message<A> {
    List(list::Message),
    Sale(Option<usize>, sale::Message<A>),
    Hotkey(Hotkey),
}

/// What a screen asks the application to do: an operation of a screen of
/// the sale with the given id.
#[derive(Debug, Clone, Copy, PartialEq, Eq, Structural)]
pub enum Operation {
    Sale(Option<usize>, sale::Operation),
}

/// The state of the application. `A` is the type of an amount of money.
pub struct App<A> {
    screen: Screen,
    sales: HashMap<usize, Sale<A>>,
    draft: (Option<usize>, Sale<A>),
    next_sale_id: usize,
    next_item_id: usize,
}

/// What the application holds: the screen, the saved sales by id, the draft
/// with the id of the sale that it is a copy of, and the ids that the next
/// new sale and the next new line get.
pub struct AppView<A> {
    pub screen: Screen,
    pub sales: Map<usize, SaleView<A>>,
    pub draft: (Option<usize>, SaleView<A>),
    pub next_sale_id: usize,
    pub next_item_id: usize,
}

/// The part of the window title that names a sale: its name, or "Untitled
/// sale" where it has none, then a space, then the id, where it has one,
/// as `(#` and `)` around the id in base ten.
pub open spec fn sale_title(name: Seq<char>, id: Option<usize>) -> Seq<char> {
    let shown = if name.len() == 0 {
        "Untitled sale"@
    } else {
        name
    };
    let number = match id {
        Some(id) => "(#"@ + decimal(id as nat) + ")"@,
        None => Seq::empty(),
    };
    shown + " "@ + number
}

/// The message that a key press gives: the hotkey that it is, if it is one.
pub open spec fn key_message<A>(key: Key, modifiers: Modifiers) -> Option<Message<A>> {
    match hotkey_of(key, modifiers) {
        Some(hotkey) => Some(Message::Hotkey(hotkey)),
        None => None,
    }
}

/// Answers a key press with the message that it gives, if any.
pub fn handle_event<A>(key: Key, modifiers: Modifiers) -> (message: Option<Message<A>>)
    ensures
        message == key_message::<A>(key, modifiers),
{
    match key {
        Key::Escape => Some(Message::Hotkey(Hotkey::Escape)),
        Key::Tab => Some(Message::Hotkey(Hotkey::Tab(modifiers))),
        Key::Other => None,
    }
}

/// What each of `sales` holds, under its id.
pub open spec fn sale_views<A>(sales: Map<usize, Sale<A>>) -> Map<usize, SaleView<A>> {
    sales.map_values(|sale: Sale<A>| sale@)
}

impl<A> AppView<A> {
    /// The application as it starts: on the list, with no sale saved and a
    /// fresh draft. The first sale gets the id 1, the first line the id 0.
    pub open spec fn initial() -> Self {
        AppView {
            screen: Screen::List,
            sales: Map::empty(),
            draft: (None, SaleView::fresh()),
            next_sale_id: 1,
            next_item_id: 0,
        }
    }

    /// Whether there is a sale for `id`: the draft, where it goes by that
    /// id, or else a saved sale.
    pub open spec fn finds(self, id: Option<usize>) -> bool {
        self.draft.0 == id || (id matches Some(saved) && self.sales.contains_key(saved))
    }

    /// The sale for `id`: the draft, where it goes by that id, or else the
    /// saved sale.
    pub open spec fn sale(self, id: Option<usize>) -> SaleView<A>
        recommends
            self.finds(id),
    {
        if self.draft.0 == id {
            self.draft.1
        } else {
            self.sales[id->0]
        }
    }

    /// The application with `sale` in place of the sale for `id`.
    pub open spec fn with_sale(self, id: Option<usize>, sale: SaleView<A>) -> Self
        recommends
            self.finds(id),
    {
        if self.draft.0 == id {
            AppView { draft: (self.draft.0, sale), ..self }
        } else {
            AppView { sales: self.sales.insert(id->0, sale), ..self }
        }
    }

    /// Whether the screen can be shown: the sale that it shows is there.
    pub open spec fn shows(self) -> bool {
        self.screen matches Screen::Sale(_, id) ==> self.finds(id)
    }

    /// The title of the window: the name of the application, then on a
    /// screen of a sale what `sale_title` says of the sale, then in the form
    /// the word Edit, with a bullet between each two parts.
    pub open spec fn title_text(self) -> Seq<char>
        recommends
            self.shows(),
    {
        match self.screen {
            Screen::List => "iced Receipts"@,
            Screen::Sale(Mode::View, id) => "iced Receipts • "@ + sale_title(
                self.sale(id).name,
                id,
            ),
            Screen::Sale(Mode::Edit, id) => "iced Receipts • "@ + sale_title(
                self.sale(id).name,
                id,
            ) + " • Edit"@,
        }
    }

    /// Whether `operation` can be carried out: to open the form on a saved
    /// sale, or to cancel its form, the sale has to be there.
    pub open spec fn performs(self, operation: Operation) -> bool {
        match operation {
            Operation::Sale(Some(id), sale::Operation::StartEdit) => self.sales.contains_key(id),
            Operation::Sale(Some(id), sale::Operation::Cancel) => self.sales.contains_key(id),
            _ => true,
        }
    }

    /// The draft that the form of the sale `id` starts from: a copy of the
    /// saved sale.
    pub open spec fn draft_of(self, id: usize) -> (Option<usize>, SaleView<A>) {
        (Some(id), self.sales[id])
    }

    /// The application after `operation`.
    ///
    /// Back leaves the form for the read-only screen of the sale, and the
    /// read-only screen for the list. Save stores the draft, under the id
    /// that the draft goes by or else under a new one, and shows the stored
    /// sale read-only; a draft stored under a new id gives way to a fresh
    /// one. StartEdit opens the form, on a copy of the saved sale where
    /// there is one. Cancel throws the draft away, for a copy of the saved
    /// sale or for a fresh draft, and shows the sale read-only.
    pub open spec fn performed(self, operation: Operation) -> Self
        recommends
            self.performs(operation),
    {
        match operation {
            Operation::Sale(id, sale::Operation::Back) => match self.screen {
                Screen::List => self,
                Screen::Sale(Mode::Edit, _) => AppView {
                    screen: Screen::Sale(Mode::View, id),
                    ..self
                },
                Screen::Sale(Mode::View, _) => AppView { screen: Screen::List, ..self },
            },
            Operation::Sale(_, sale::Operation::Save) => match self.draft.0 {
                Some(id) => AppView {
                    screen: Screen::Sale(Mode::View, Some(id)),
                    sales: self.sales.insert(id, self.draft.1),
                    ..self
                },
                None => AppView {
                    screen: Screen::Sale(Mode::View, Some(self.next_sale_id)),
                    sales: self.sales.insert(self.next_sale_id, self.draft.1),
                    draft: (None, SaleView::fresh()),
                    next_sale_id: following(self.next_sale_id),
                    ..self
                },
            },
            Operation::Sale(id, sale::Operation::StartEdit) => AppView {
                screen: Screen::Sale(Mode::Edit, id),
                draft: match id {
                    Some(saved) => self.draft_of(saved),
                    None => self.draft,
                },
                ..self
            },
            Operation::Sale(id, sale::Operation::Cancel) => AppView {
                screen: Screen::Sale(Mode::View, id),
                draft: match id {
                    Some(saved) => self.draft_of(saved),
                    None => (None, SaleView::fresh()),
                },
                ..self
            },
        }
    }
}

impl<A> AppView<A> {
    /// The application after a screen of the sale `id` asked for
    /// `operation`, or for nothing.
    pub open spec fn asked(self, id: Option<usize>, operation: Option<sale::Operation>) -> Self {
        match operation {
            Some(operation) => self.performed(Operation::Sale(id, operation)),
            None => self,
        }
    }

    /// The application after the sale for `id` took `message`: the sale
    /// changed as `SaleView::after` says, and an id used up where a line was
    /// added.
    pub open spec fn edited(self, id: Option<usize>, message: sale::Message<A>) -> Self
        recommends
            self.finds(id),
    {
        AppView {
            next_item_id: sale::next_item_id_after(message, self.next_item_id),
            ..self.with_sale(id, self.sale(id).after(message, self.next_item_id))
        }
    }

    /// Whether `message` can be taken. A message of the list always can. A
    /// hotkey can where the screen can be shown. A message of a screen of a
    /// sale can where that sale is there and the operation that the message
    /// asks for, if any, can be carried out.
    pub open spec fn handles(self, message: Message<A>) -> bool {
        match message {
            Message::List(_) => true,
            Message::Hotkey(_) => self.shows(),
            Message::Sale(id, message) => {
                &&& self.finds(id)
                &&& sale::message_operation(message) matches Some(operation) ==> self.performs(
                    Operation::Sale(id, operation),
                )
            },
        }
    }

    /// The application after `message`.
    ///
    /// NewSale opens the form on a fresh draft. SelectSale shows the sale
    /// read-only. A hotkey on a screen of a sale does what the screen asks
    /// for on that key. A message of a screen of a sale first changes that
    /// sale and then does what the message asks for.
    pub open spec fn updated(self, message: Message<A>) -> Self
        recommends
            self.handles(message),
    {
        match message {
            Message::List(list::Message::NewSale) => AppView {
                screen: Screen::Sale(Mode::Edit, None),
                draft: (None, SaleView::fresh()),
                ..self
            },
            Message::List(list::Message::SelectSale(id)) => AppView {
                screen: Screen::Sale(Mode::View, Some(id)),
                ..self
            },
            Message::Hotkey(hotkey) => match self.screen {
                Screen::List => self,
                Screen::Sale(_, id) => self.asked(id, sale::hotkey_operation(hotkey)),
            },
            Message::Sale(id, message) => self.edited(id, message).asked(
                id,
                sale::message_operation(message),
            ),
        }
    }

    /// Whether every sale that the application refers to is there: the one
    /// on the screen, and the saved sale that the draft is a copy of.
    pub open spec fn consistent(self) -> bool {
        &&& self.screen matches Screen::Sale(_, None) ==> self.draft.0 is None
        &&& self.screen matches Screen::Sale(_, Some(id)) ==> self.sales.contains_key(id)
        &&& self.draft.0 matches Some(id) ==> self.sales.contains_key(id)
    }

    /// Whether `message` speaks of sales that are there: SelectSale of a
    /// saved sale, and a message of a screen of a sale either of a saved
    /// sale or, without an id, of a draft that has none.
    pub open spec fn admits(self, message: Message<A>) -> bool {
        match message {
            Message::List(list::Message::NewSale) => true,
            Message::List(list::Message::SelectSale(id)) => self.sales.contains_key(id),
            Message::Hotkey(_) => true,
            Message::Sale(Some(id), _) => self.sales.contains_key(id),
            Message::Sale(None, _) => self.draft.0 is None,
        }
    }

    /// No message takes a saved sale away.
    pub proof fn sales_are_kept(self, message: Message<A>, id: usize)
        requires
            self.sales.contains_key(id),
        ensures
            self.updated(message).sales.contains_key(id),
    {
    }

    /// A message of a screen of one sale leaves every other saved sale as
    /// it is, unless the draft is stored under the id of that other sale:
    /// the id that the draft goes by, or the id that the next new sale gets.
    pub proof fn other_sales_are_left(
        self,
        id: Option<usize>,
        message: sale::Message<A>,
        other: usize,
    )
        requires
            self.finds(id),
            self.sales.contains_key(other),
            id != Some(other),
            self.draft.0 != Some(other),
            self.draft.0 is None ==> self.next_sale_id != other,
        ensures
            self.updated(Message::Sale(id, message)).sales[other] == self.sales[other],
    {
    }

    /// Whether every saved sale has an id below the one that the next new
    /// sale gets, so that a new sale replaces none.
    pub open spec fn ids_are_new(self) -> bool {
        forall|id: usize| self.sales.contains_key(id) ==> id < self.next_sale_id
    }

    /// The ids stay new for as long as they do not run out: in a consistent
    /// application, after every message that it admits.
    pub proof fn ids_stay_new(self, message: Message<A>)
        requires
            self.consistent(),
            self.admits(message),
            self.ids_are_new(),
            self.next_sale_id < usize::MAX,
        ensures
            self.updated(message).ids_are_new(),
    {
    }

    /// The application starts consistent.
    pub proof fn initial_is_consistent()
        ensures
            Self::initial().consistent(),
            Self::initial().shows(),
            Self::initial().ids_are_new(),
    {
    }

    /// A consistent application can be shown, takes every message that it
    /// admits, and is consistent again after it.
    pub proof fn consistent_after_update(self, message: Message<A>)
        requires
            self.consistent(),
            self.admits(message),
        ensures
            self.shows(),
            self.handles(message),
            self.updated(message).consistent(),
            self.updated(message).shows(),
    {
    }
}

impl<A> View for App<A> {
    type V = AppView<A>;

    closed spec fn view(&self) -> AppView<A> {
        AppView {
            screen: self.screen,
            sales: sale_views(self.sales@),
            draft: (self.draft.0, self.draft.1@),
            next_sale_id: self.next_sale_id,
            next_item_id: self.next_item_id,
        }
    }
}

impl<A: Copy + Send + 'static> App<A> {
    /// The application as it starts, and a task that does nothing.
    pub fn new() -> (start: (Self, Task<Message<A>>))
        ensures
            start.0@ == AppView::<A>::initial(),
    {
        let app = App {
            screen: Screen::List,
            sales: HashMap::new(),
            draft: (None, Sale::default()),
            next_sale_id: 1,
            next_item_id: 0,
        };
        assert(sale_views(app.sales@) =~= Map::empty());
        (app, Task::none())
    }

    /// The screen that is shown.
    pub fn screen(&self) -> (screen: Screen)
        ensures
            screen == self@.screen,
    {
        self.screen
    }

    /// The saved sales, by id.
    pub fn sales(&self) -> (sales: &HashMap<usize, Sale<A>>)
        ensures
            sale_views(sales@) == self@.sales,
    {
        &self.sales
    }

    /// Whether there is a sale for `id`.
    pub fn has_sale(&self, id: Option<usize>) -> (found: bool)
        ensures
            found == self@.finds(id),
    {
        if self.draft.0 == id {
            true
        } else {
            match id {
                Some(saved) => self.sales.contains_key(&saved),
                None => false,
            }
        }
    }

    /// The sale for `id`: the draft, where it goes by that id, or else the
    /// saved sale.
    pub fn sale(&self, id: Option<usize>) -> (sale: &Sale<A>)
        requires
            self@.finds(id),
        ensures
            sale@ == self@.sale(id),
    {
        if self.draft.0 == id {
            &self.draft.1
        } else {
            let saved = self.sales.get(&id.unwrap());
            saved.unwrap()
        }
    }

    /// Whether the screen can be shown.
    pub fn can_show(&self) -> (shown: bool)
        ensures
            shown == self@.shows(),
    {
        match self.screen {
            Screen::List => true,
            Screen::Sale(_, id) => self.has_sale(id),
        }
    }

    /// Whether `operation` can be carried out.
    pub fn can_perform(&self, operation: Operation) -> (performed: bool)
        ensures
            performed == self@.performs(operation),
    {
        match operation {
            Operation::Sale(Some(id), sale::Operation::StartEdit) => self.sales.contains_key(&id),
            Operation::Sale(Some(id), sale::Operation::Cancel) => self.sales.contains_key(&id),
            _ => true,
        }
    }

    /// Whether `message` can be taken.
    pub fn can_update(&self, message: &Message<A>) -> (handled: bool)
        ensures
            handled == self@.handles(*message),
    {
        match message {
            Message::List(_) => true,
            Message::Hotkey(_) => self.can_show(),
            Message::Sale(id, message) => {
                self.has_sale(*id) && match sale::operation_of(message) {
                    Some(operation) => self.can_perform(Operation::Sale(*id, operation)),
                    None => true,
                }
            },
        }
    }

    /// The title of the window.
    pub fn title(&self) -> (title: String)
        requires
            self@.shows(),
        ensures
            title@ == self@.title_text(),
    {
        match self.screen {
            Screen::List => "iced Receipts".to_owned(),
            Screen::Sale(mode, id) => {
                let sale = self.sale(id);
                let mut sale_name = if sale.name.as_str().is_empty() {
                    "Untitled sale".to_owned()
                } else {
                    sale.name.clone()
                };
                sale_name.append(" ");
                if let Some(id) = id {
                    let ghost named = sale_name@;
                    sale_name.append("(#");
                    sale_name.append(decimal_string(id).as_str());
                    sale_name.append(")");
                    assert(sale_name@ =~= named + ("(#"@ + decimal(id as nat) + ")"@));
                } else {
                    assert(sale_name@ =~= sale_name@ + Seq::<char>::empty());
                }
                assert(sale_name@ == sale_title(sale@.name, id));
                let mut title = "iced Receipts • ".to_owned();
                title.append(sale_name.as_str());
                match mode {
                    Mode::View => {},
                    Mode::Edit => {
                        title.append(" • Edit");
                    },
                }
                title
            },
        }
    }

    /// A copy of the saved sale `id`, to be the draft of its form.
    fn copy_of(&self, id: usize) -> (draft: (Option<usize>, Sale<A>))
        requires
            self@.sales.contains_key(id),
        ensures
            (draft.0, draft.1@) == self@.draft_of(id),
    {
        let saved = self.sales.get(&id);
        (Some(id), saved.unwrap().clone())
    }

    /// Stores `sale` under `id`, in place of what was stored there.
    fn store(&mut self, id: usize, sale: Sale<A>)
        ensures
            final(self)@ == (AppView { sales: old(self)@.sales.insert(id, sale@), ..old(self)@ }),
    {
        let _ = self.sales.insert(id, sale);
        assert(sale_views(self.sales@) =~= sale_views(old(self).sales@).insert(id, sale@));
    }

    /// Changes the sale for `id` as `message` asks.
    fn edit(&mut self, id: Option<usize>, message: sale::Message<A>) -> (action: Action<
        sale::Operation,
        sale::Message<A>,
    >)
        requires
            old(self)@.finds(id),
        ensures
            final(self)@ == old(self)@.edited(id, message),
            action.operation == sale::message_operation(message),
    {
        let mut next_item_id = self.next_item_id;
        let action = if self.draft.0 == id {
            sale::update(&mut self.draft.1, message, &mut next_item_id)
        } else {
            let saved = id.unwrap();
            let held = self.sales.remove(&saved);
            let mut sale = held.unwrap();
            let action = sale::update(&mut sale, message, &mut next_item_id);
            let _ = self.sales.insert(saved, sale);
            assert(sale_views(self.sales@) =~= sale_views(old(self).sales@).insert(saved, sale@));
            action
        };
        self.next_item_id = next_item_id;
        action
    }

    /// Does what a screen of the sale `id` asked for in `action`: carries
    /// out its operation, if it has one, and returns its task to be run
    /// after that.
    fn follow(&mut self, id: Option<usize>, action: Action<sale::Operation, sale::Message<A>>) -> (task:
        Task<Message<A>>)
        requires
            action.operation matches Some(operation) ==> old(self)@.performs(
                Operation::Sale(id, operation),
            ),
        ensures
            final(self)@ == old(self)@.asked(id, action.operation),
    {
        let action = action.map_operation(
            move |operation: sale::Operation| -> (to: Operation)
                ensures
                    to == Operation::Sale(id, operation)
                { Operation::Sale(id, operation) },
        ).map(move |message: sale::Message<A>| Message::Sale(id, message));
        let operation_task = match action.operation {
            Some(operation) => self.perform(operation),
            None => Task::none(),
        };
        operation_task.chain(action.task)
    }

    /// Takes a message: changes the state as `AppView::updated` says, and
    /// returns the task that the runtime is to run. NewSale returns the task
    /// that puts the focus in the form; a message or a hotkey of a screen of
    /// a sale returns the task of that screen's action.
    pub fn update(&mut self, message: Message<A>) -> (task: Task<Message<A>>)
        requires
            old(self)@.handles(message),
        ensures
            final(self)@ == old(self)@.updated(message),
    {
        match message {
            Message::List(list::Message::NewSale) => {
                self.draft = (None, Sale::default());
                self.screen = Screen::Sale(Mode::Edit, None);
                focus_next()
            },
            Message::List(list::Message::SelectSale(id)) => {
                self.screen = Screen::Sale(Mode::View, Some(id));
                Task::none()
            },
            Message::Hotkey(hotkey) => match self.screen {
                Screen::List => Task::none(),
                Screen::Sale(mode, sale_id) => {
                    let action = sale::handle_hotkey(self.sale(sale_id), mode, hotkey);
                    self.follow(sale_id, action)
                },
            },
            Message::Sale(sale_id, message) => {
                let action = self.edit(sale_id, message);
                self.follow(sale_id, action)
            },
        }
    }

    /// Carries out an operation that a screen asked for, and returns a task
    /// that does nothing.
    pub fn perform(&mut self, operation: Operation) -> (task: Task<Message<A>>)
        requires
            old(self)@.performs(operation),
        ensures
            final(self)@ == old(self)@.performed(operation),
    {
        match operation {
            Operation::Sale(sale_id, operation) => match operation {
                sale::Operation::Back => match self.screen {
                    Screen::List => {},
                    Screen::Sale(mode, _) => match mode {
                        Mode::Edit => {
                            self.screen = Screen::Sale(Mode::View, sale_id);
                        },
                        Mode::View => {
                            self.screen = Screen::List;
                        },
                    },
                },
                sale::Operation::Save => {
                    let final_id = match self.draft.0 {
                        Some(id) => {
                            let sale = self.draft.1.clone();
                            self.store(id, sale);
                            id
                        },
                        None => {
                            let new_id = self.next_sale_id;
                            self.next_sale_id = next_id(new_id);
                            let mut sale = Sale::default();
                            std::mem::swap(&mut self.draft.1, &mut sale);
                            self.store(new_id, sale);
                            new_id
                        },
                    };
                    self.screen = Screen::Sale(Mode::View, Some(final_id));
                },
                sale::Operation::StartEdit => {
                    if let Some(id) = sale_id {
                        self.draft = self.copy_of(id);
                    }
                    self.screen = Screen::Sale(Mode::Edit, sale_id);
                },
                sale::Operation::Cancel => {
                    match sale_id {
                        Some(id) => {
                            self.draft = self.copy_of(id);
                        },
                        None => {
                            self.draft = (None, Sale::default());
                        },
                    }
                    self.screen = Screen::Sale(Mode::View, sale_id);
                },
            },
        }
        Task::none()
    }
}

} // verus!
