//! The view layer: the selectable screens, the navigation actions they can
//! request, and the router that owns the active view and the back-navigation
//! history.

use vstd::prelude::*;

use crate::events::InputEvent;
use crate::mailbox::{sound_sent, TaskSenders};

pub mod battlefield;
pub mod csgo;
pub mod main_menu;
pub mod search_and_destroy;
pub mod the_finals;

verus! {

/// The selectable screens. Exactly one is active at a time.
#[derive(Debug, Clone, Copy, PartialEq, Eq, Structural)]
pub enum ViewType {
    MainMenu,
    SearchAndDestroy,
    CSGO,
    Battlefield,
    TheFinals,
}

/// What a view may ask the router to do with the navigation state.
#[derive(Debug, Clone, Copy, PartialEq, Eq, Structural)]
pub enum NavigationAction {
    /// Switch to a view, remembering the current one for `Back`.
    GoTo(ViewType),
    /// Return to the most recently remembered view, if any.
    Back,
    /// The safe-state action: return to the main menu and clear the
    /// history.
    Exit,
}

/// How an action moves the navigation state: the active view and the
/// history stack, most recent last. Going to the already-active view is a
/// no-op, `Back` on an empty stack is a no-op, and `Exit` empties the
/// history.
pub open spec fn navigate(current: ViewType, stack: Seq<ViewType>, action: Option<NavigationAction>) -> (
    ViewType,
    Seq<ViewType>,
) {
    match action {
        Option::None => (current, stack),
        Option::Some(NavigationAction::GoTo(v)) => if v != current {
            (v, stack.push(current))
        } else {
            (current, stack)
        },
        Option::Some(NavigationAction::Back) => if stack.len() > 0 {
            (stack.last(), stack.drop_last())
        } else {
            (current, stack)
        },
        Option::Some(NavigationAction::Exit) => (ViewType::MainMenu, Seq::empty()),
    }
}

/// Whether an action makes the router enter a view it was not showing, so
/// that the new view's entry hook runs.
pub open spec fn nav_enters(current: ViewType, stack: Seq<ViewType>, action: Option<NavigationAction>) -> bool {
    match action {
        Option::None => false,
        Option::Some(NavigationAction::GoTo(v)) => v != current,
        Option::Some(NavigationAction::Back) => stack.len() > 0,
        Option::Some(NavigationAction::Exit) => current != ViewType::MainMenu,
    }
}

/// Law (navigation stack): going from one view to another and back restores
/// the first view and the previous history exactly; with an empty history
/// that single hop empties the stack again; and `Back` on an empty stack
/// changes nothing.
pub proof fn lemma_navigation_stack(a: ViewType, b: ViewType, stack: Seq<ViewType>)
    requires
        a != b,
    ensures
        navigate(a, stack, Some(NavigationAction::GoTo(b))).0 == b,
        ({
            let hop = navigate(a, stack, Some(NavigationAction::GoTo(b)));
            let back = navigate(hop.0, hop.1, Some(NavigationAction::Back));
            back.0 == a && back.1 =~= stack
        }),
        navigate(a, Seq::empty(), Some(NavigationAction::Back)) == (a, Seq::<ViewType>::empty()),
{
}

/// The navigation action the active view requests for an event.
pub open spec fn active_action(r: Router, event: InputEvent) -> Option<NavigationAction> {
    match r.current_view {
        ViewType::MainMenu => main_menu::mm_action(r.main_menu, event),
        ViewType::SearchAndDestroy => search_and_destroy::sd_action(r.search_and_destroy, event),
        ViewType::CSGO => csgo::csgo_action(r.csgo, event),
        ViewType::Battlefield => battlefield::bf_action(r.battlefield@, event),
        ViewType::TheFinals => the_finals::tf_action(r.the_finals@, event),
    }
}

/// The feedback sounds the active view emits for an event.
pub open spec fn active_sounds(r: Router, event: InputEvent) -> Seq<crate::outputs::SoundCommand> {
    match r.current_view {
        ViewType::MainMenu => main_menu::mm_sounds(r.main_menu, event),
        ViewType::SearchAndDestroy => search_and_destroy::sd_sounds(r.search_and_destroy, event),
        ViewType::CSGO => csgo::csgo_sounds(r.csgo, event),
        ViewType::Battlefield => battlefield::bf_sounds(r.battlefield@, event),
        ViewType::TheFinals => the_finals::tf_sounds(r.the_finals@, event),
    }
}

/// All sounds one dispatch emits: the active view's feedback, then the
/// greeting beep of a newly entered view.
pub open spec fn router_sounds(r: Router, event: InputEvent) -> Seq<crate::outputs::SoundCommand> {
    active_sounds(r, event) + (if nav_enters(
        r.current_view,
        r.view_stack@,
        active_action(r, event),
    ) {
        seq![crate::outputs::SoundCommand::Beep]
    } else {
        Seq::<crate::outputs::SoundCommand>::empty()
    })
}

/// The router: the single addressee for all input. It owns the active view,
/// the back-navigation history and one resident instance of every view.
pub struct Router {
    pub current_view: ViewType,
    pub view_stack: Vec<ViewType>,
    pub main_menu: main_menu::MainMenuView,
    pub search_and_destroy: search_and_destroy::SearchAndDestroyView,
    pub csgo: csgo::CSGOView,
    pub battlefield: battlefield::BattlefieldView,
    pub the_finals: the_finals::TheFinalsView,
}

impl Router {
    /// Every resident view is well formed.
    pub open spec fn wf(&self) -> bool {
        main_menu::mm_wf(self.main_menu) && search_and_destroy::sd_wf(self.search_and_destroy)
            && csgo::csgo_wf(self.csgo) && battlefield::bf_wf(self.battlefield@)
            && the_finals::tf_wf(self.the_finals@)
    }

    /// A router showing the main menu with an empty history; entering the
    /// menu plays its greeting beep.
    pub fn new(senders: &mut TaskSenders) -> (r: Router)
        requires
            old(senders).wf(),
        ensures
            r.wf(),
            r.current_view == ViewType::MainMenu,
            r.view_stack@ == Seq::<ViewType>::empty(),
            r.main_menu.selected_index == 0,
            r.search_and_destroy == search_and_destroy::sd_initial(),
            r.csgo == csgo::csgo_initial(),
            r.battlefield@ == battlefield::bf_initial(),
            r.the_finals@ == the_finals::tf_initial(),
            sound_sent(*old(senders), *final(senders), seq![crate::outputs::SoundCommand::Beep]),
            final(senders).wf(),
    {
        let mut router = Router {
            current_view: ViewType::MainMenu,
            view_stack: Vec::new(),
            main_menu: main_menu::MainMenuView::new(),
            search_and_destroy: search_and_destroy::SearchAndDestroyView::new(),
            csgo: csgo::CSGOView::new(),
            battlefield: battlefield::BattlefieldView::new(),
            the_finals: the_finals::TheFinalsView::new(),
        };
        router.main_menu.on_enter(senders);
        router
    }

    /// The view currently in control.
    pub fn current_view(&self) -> (v: ViewType)
        ensures
            v == self.current_view,
    {
        self.current_view
    }

    /// Deliver one input event: the active view handles it, and any
    /// navigation it requests is applied before the action is handed back
    /// for app-level effects.
    pub fn handle_input(&mut self, event: InputEvent, senders: &mut TaskSenders) -> (action: Option<
        NavigationAction,
    >)
        requires
            old(self).wf(),
            old(senders).wf(),
        ensures
            final(self).wf(),
            final(senders).wf(),
            action == active_action(*old(self), event),
            (final(self).current_view, final(self).view_stack@) == navigate(
                old(self).current_view,
                old(self).view_stack@,
                action,
            ),
            final(self).main_menu == (if old(self).current_view == ViewType::MainMenu {
                main_menu::mm_step(old(self).main_menu, event)
            } else {
                old(self).main_menu
            }),
            final(self).search_and_destroy == (if old(self).current_view
                == ViewType::SearchAndDestroy {
                search_and_destroy::sd_step(old(self).search_and_destroy, event)
            } else {
                old(self).search_and_destroy
            }),
            final(self).csgo == (if old(self).current_view == ViewType::CSGO {
                csgo::csgo_step(old(self).csgo, event)
            } else {
                old(self).csgo
            }),
            final(self).battlefield@ == (if old(self).current_view == ViewType::Battlefield {
                battlefield::bf_step(old(self).battlefield@, event)
            } else {
                old(self).battlefield@
            }),
            final(self).the_finals@ == (if old(self).current_view == ViewType::TheFinals {
                the_finals::tf_step(old(self).the_finals@, event)
            } else {
                old(self).the_finals@
            }),
            sound_sent(*old(senders), *final(senders), router_sounds(*old(self), event)),
    {
        let ghost pre = *old(self);
        let action = match self.current_view {
            ViewType::MainMenu => self.main_menu.handle_input(event, senders),
            ViewType::SearchAndDestroy => self.search_and_destroy.handle_input(event, senders),
            ViewType::CSGO => self.csgo.handle_input(event, senders),
            ViewType::Battlefield => self.battlefield.handle_input(event, senders),
            ViewType::TheFinals => self.the_finals.handle_input(event, senders),
        };
        if let Some(nav_action) = action {
            self.handle_navigation(nav_action, senders);
            proof {
                crate::mailbox::lemma_notified_all_append(
                    old(senders).sound@,
                    old(senders).sound.capacity_spec(),
                    active_sounds(pre, event),
                    if nav_enters(pre.current_view, pre.view_stack@, active_action(pre, event)) {
                        seq![crate::outputs::SoundCommand::Beep]
                    } else {
                        Seq::<crate::outputs::SoundCommand>::empty()
                    },
                );
            }
        } else {
            proof {
                assert(router_sounds(pre, event) =~= active_sounds(pre, event));
            }
        }
        action
    }

    /// Apply one navigation action to the active view and the history
    /// stack; entering a view it was not showing plays that view's
    /// greeting beep.
    fn handle_navigation(&mut self, action: NavigationAction, senders: &mut TaskSenders)
        requires
            old(self).wf(),
            old(senders).wf(),
        ensures
            final(self).wf(),
            final(senders).wf(),
            (final(self).current_view, final(self).view_stack@) == navigate(
                old(self).current_view,
                old(self).view_stack@,
                Some(action),
            ),
            final(self).main_menu == old(self).main_menu,
            final(self).search_and_destroy == old(self).search_and_destroy,
            final(self).csgo == old(self).csgo,
            final(self).battlefield@ == old(self).battlefield@,
            final(self).the_finals@ == old(self).the_finals@,
            sound_sent(
                *old(senders),
                *final(senders),
                if nav_enters(old(self).current_view, old(self).view_stack@, Some(action)) {
                    seq![crate::outputs::SoundCommand::Beep]
                } else {
                    Seq::<crate::outputs::SoundCommand>::empty()
                },
            ),
    {
        proof {
            crate::mailbox::lemma_notify_none(old(senders).sound@, old(senders).sound.capacity_spec());
        }
        match action {
            NavigationAction::GoTo(new_view) => {
                if !(new_view == self.current_view) {
                    self.view_stack.push(self.current_view);
                    self.current_view = new_view;
                    self.enter_current(senders);
                }
            },
            NavigationAction::Back => {
                let previous = self.view_stack.pop();
                match previous {
                    Some(previous_view) => {
                        self.current_view = previous_view;
                        self.enter_current(senders);
                    },
                    None => {},
                }
            },
            NavigationAction::Exit => {
                if !(self.current_view == ViewType::MainMenu) {
                    self.current_view = ViewType::MainMenu;
                    self.view_stack.clear();
                    self.enter_current(senders);
                } else {
                    self.view_stack.clear();
                }
            },
        }
    }

    /// Run the newly active view's entry hook.
    fn enter_current(&mut self, senders: &mut TaskSenders)
        requires
            old(senders).wf(),
        ensures
            *final(self) == *old(self),
            sound_sent(*old(senders), *final(senders), seq![crate::outputs::SoundCommand::Beep]),
            final(senders).wf(),
    {
        match self.current_view {
            ViewType::MainMenu => self.main_menu.on_enter(senders),
            ViewType::SearchAndDestroy => self.search_and_destroy.on_enter(senders),
            ViewType::CSGO => self.csgo.on_enter(senders),
            ViewType::Battlefield => self.battlefield.on_enter(senders),
            ViewType::TheFinals => self.the_finals.on_enter(senders),
        }
    }

    /// The drawable description of the active view, delegated untouched.
    pub fn render(&self) -> (lines: Vec<String>)
        requires
            self.wf(),
        ensures
            self.current_view == ViewType::MainMenu ==> lines@.len() == 5 && lines@[0]@
                == "AIRSOFT GAME SYSTEM"@,
            self.current_view == ViewType::SearchAndDestroy ==> lines@.len() == 7 && lines@[0]@
                == search_and_destroy::SearchAndDestroyView::status_text(self.search_and_destroy),
            self.current_view == ViewType::CSGO ==> lines@.len() == 6 && lines@[0]@
                == "CSGO - Search & Destroy"@,
            self.current_view == ViewType::Battlefield ==> lines@.len() == 8 && lines@[0]@
                == "BATTLEFIELD - Domination"@,
            self.current_view == ViewType::TheFinals ==> lines@.len() == 8 && lines@[0]@
                == "THE FINALS - Cashout"@,
    {
        match self.current_view {
            ViewType::MainMenu => self.main_menu.render(),
            ViewType::SearchAndDestroy => self.search_and_destroy.render(),
            ViewType::CSGO => self.csgo.render(),
            ViewType::Battlefield => self.battlefield.render(),
            ViewType::TheFinals => self.the_finals.render(),
        }
    }
}

} // verus!
