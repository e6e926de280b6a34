//! Turn-based combat: fighter statistics, the damage formula, the command
//! menu and the state machine that passes the turn between hero and enemy.

use vstd::prelude::*;

use crate::ascii::{
    box_width, decimal, lemma_can_spell_concat, lemma_decimal_can_be_spelt, spec_can_spell,
    spec_decimal,
};
use crate::keys::{just_pressed, keys_just_pressed, Key};
use crate::player::Player;
use crate::GameState;
use bevy::input::keyboard::KeyCode;
use bevy::input::Input;

verus! {

/// `bevy::ecs::entity::Entity`, the engine's handle of a spawned thing. The
/// rules never look inside one: they only pass on whom a blow is aimed at.
#[verifier::external_type_specification]
#[verifier::external_body]
pub struct ExEntity(bevy::ecs::entity::Entity);

/// The phases a fight moves through.
#[derive(Debug, Clone, Copy, PartialEq, Eq, Hash, Structural)]
pub enum State {
    PlayerTurn,
    PlayerAttack,
    EnemyTurn,
    EnemyAttack,
    Reward,
    Exiting,
}

impl Default for State {
    /// A fight opens with the hero's turn.
    fn default() -> (state: Self)
        ensures
            state == State::PlayerTurn,
    {
        State::PlayerTurn
    }
}

impl State {
    /// Whether an attack animation plays in this phase.
    pub open spec fn spec_is_attack(self) -> bool {
        self == State::PlayerAttack || self == State::EnemyAttack
    }

    /// Whether an attack animation plays in this phase.
    #[verifier::when_used_as_spec(spec_is_attack)]
    pub fn is_attack(self) -> (attacking: bool)
        ensures
            attacking == self.spec_is_attack(),
    {
        match self {
            State::PlayerAttack => true,
            State::EnemyAttack => true,
            _ => false,
        }
    }
}

/// The kinds of enemy the character sheet draws.
#[derive(Debug, Clone, Copy, PartialEq, Eq, Hash, Structural)]
pub enum EnemyType {
    Bat,
    Spectre,
}

/// What a fighter brings into a fight.
#[derive(Debug, Clone, Copy, PartialEq, Eq, Structural)]
pub struct Stats {
    pub health: isize,
    pub max_health: isize,
    pub attack: isize,
    pub defense: isize,
}

/// A blow on its way to its target.
#[derive(Debug, Clone, Copy, PartialEq, Eq)]
pub struct Event {
    pub target: bevy::ecs::entity::Entity,
    pub damage_amount: isize,
    pub next_state: State,
}

/// Health left after a blow of `damage_amount`: the defence is taken off the
/// blow, the rest off the health, and health never drops below zero.
pub open spec fn spec_health_after(stats: Stats, damage_amount: int) -> int {
    let left = stats.health - (damage_amount - stats.defense);
    if left < 0 {
        0
    } else {
        left
    }
}

/// The phase that follows a blow: the fight is won or lost once health
/// reaches zero, otherwise it goes on as the blow asked.
pub open spec fn spec_state_after(health: int, next_state: State) -> State {
    if health == 0 {
        State::Reward
    } else {
        next_state
    }
}

impl Stats {
    /// Whether the health left after a blow of `damage_amount` can be stored.
    pub open spec fn spec_can_take(self, damage_amount: int) -> bool {
        spec_health_after(self, damage_amount) <= isize::MAX
    }

    /// Whether the health left after a blow of `damage_amount` can be stored.
    pub fn can_take(&self, damage_amount: isize) -> (fits: bool)
        ensures
            fits == self.spec_can_take(damage_amount as int),
    {
        let blow: i128 = damage_amount as i128 - self.defense as i128;
        let left: i128 = self.health as i128 - blow;
        left <= isize::MAX as i128
    }

    /// Takes a blow of `damage_amount`.
    pub fn take_damage(&mut self, damage_amount: isize)
        requires
            old(self).spec_can_take(damage_amount as int),
        ensures
            final(self).health == spec_health_after(*old(self), damage_amount as int),
            final(self).max_health == old(self).max_health,
            final(self).attack == old(self).attack,
            final(self).defense == old(self).defense,
    {
        let blow: i128 = damage_amount as i128 - self.defense as i128;
        let left: i128 = self.health as i128 - blow;
        if left < 0 {
            self.health = 0;
        } else {
            self.health = left as isize;
        }
    }

    /// The statistics the hero sets out with.
    pub fn player() -> (stats: Stats)
        ensures
            stats == (Stats { health: 10, max_health: 10, attack: 2, defense: 1 }),
    {
        Stats { health: 10, max_health: 10, attack: 2, defense: 1 }
    }

    /// The statistics of the enemy that waits in the tall grass.
    pub fn enemy() -> (stats: Stats)
        ensures
            stats == (Stats { health: 3, max_health: 3, attack: 2, defense: 1 }),
    {
        Stats { health: 3, max_health: 3, attack: 2, defense: 1 }
    }
}

/// Lands a blow: the target's health drops as `spec_health_after` says, and
/// the fight moves to the reward once the target is down, else to the phase
/// the blow names.
pub fn damage_calculation(target: &mut Stats, event: &Event) -> (next: State)
    requires
        old(target).spec_can_take(event.damage_amount as int),
    ensures
        final(target).health == spec_health_after(*old(target), event.damage_amount as int),
        final(target).max_health == old(target).max_health,
        final(target).attack == old(target).attack,
        final(target).defense == old(target).defense,
        next == spec_state_after(final(target).health as int, event.next_state),
{
    target.take_damage(event.damage_amount);
    if target.health == 0 {
        State::Reward
    } else {
        event.next_state
    }
}

/// The commands of the fight menu, from left to right.
#[derive(Debug, Clone, Copy, PartialEq, Eq, Structural)]
pub enum MenuOption {
    Fight,
    Run,
}

/// The number of commands in the fight menu.
pub const MENU_SIZE: isize = 2;

impl MenuOption {
    /// The place of a command in the menu, counted from the left.
    pub open spec fn spec_index(self) -> int {
        match self {
            MenuOption::Fight => 0,
            MenuOption::Run => 1,
        }
    }

    /// The command at place `index` of the menu.
    pub open spec fn spec_at(index: int) -> MenuOption {
        if index == 0 {
            MenuOption::Fight
        } else {
            MenuOption::Run
        }
    }

    /// The place of a command in the menu, counted from the left.
    pub fn index(self) -> (index: isize)
        ensures
            index == self.spec_index(),
            0 <= index < MENU_SIZE,
    {
        match self {
            MenuOption::Fight => 0,
            MenuOption::Run => 1,
        }
    }

    /// What the button of a command says.
    pub open spec fn spec_label(self) -> Seq<char> {
        match self {
            MenuOption::Fight => "Fight"@,
            MenuOption::Run => "Run"@,
        }
    }

    /// What the button of a command says.
    pub fn label(self) -> (text: &'static str)
        ensures
            text@ == self.spec_label(),
            text.is_ascii(),
    {
        proof {
            reveal_strlit("Fight");
            reveal_strlit("Run");
        }
        match self {
            MenuOption::Fight => "Fight",
            MenuOption::Run => "Run",
        }
    }

    /// Tiles the button of a command is wide: its label and a border on
    /// either side.
    pub open spec fn spec_width(self) -> int {
        self.spec_label().len() as int + 2
    }

    /// Tiles the button of a command is wide.
    pub fn width(self) -> (tiles: usize)
        ensures
            tiles == self.spec_width(),
            tiles == (if self == MenuOption::Fight {
                7int
            } else {
                5int
            }),
    {
        let text = self.label();
        proof {
            reveal_strlit("Fight");
            reveal_strlit("Run");
            vstd::string::is_ascii_spec_bytes(text);
        }
        box_width(text)
    }

    /// Tiles between the right edge of the screen and the right edge of the
    /// button of a command. The buttons stand side by side against the right
    /// edge in the order of the menu, so this is the width of the buttons of
    /// the commands after it.
    pub open spec fn spec_right_margin(self) -> int {
        match self {
            MenuOption::Fight => MenuOption::Run.spec_width(),
            MenuOption::Run => 0,
        }
    }

    /// Tiles between the right edge of the screen and the right edge of the
    /// button of a command.
    pub fn right_margin(self) -> (tiles: usize)
        ensures
            tiles == self.spec_right_margin(),
    {
        match self {
            MenuOption::Fight => MenuOption::Run.width(),
            MenuOption::Run => 0,
        }
    }

    /// The command at place `index` of the menu.
    pub fn at(index: isize) -> (option: MenuOption)
        requires
            0 <= index < MENU_SIZE,
        ensures
            option == Self::spec_at(index as int),
            option.spec_index() == index,
    {
        if index == 0 {
            MenuOption::Fight
        } else {
            MenuOption::Run
        }
    }
}

/// The command the cursor rests on after the keys that move it: one place to
/// the left for `left`, one to the right for `right`, and round to the other
/// end of the menu from either end.
pub open spec fn spec_menu_move(from: MenuOption, left: bool, right: bool) -> MenuOption {
    let moved = from.spec_index() - (if left {
        1int
    } else {
        0int
    }) + (if right {
        1int
    } else {
        0int
    });
    MenuOption::spec_at((moved + MENU_SIZE) % (MENU_SIZE as int))
}

/// The command the cursor of the fight menu rests on.
#[derive(Debug, Clone, Copy, PartialEq, Eq, Structural)]
pub struct MenuSelection {
    pub selected: MenuOption,
}

impl MenuSelection {
    /// The cursor where a fight finds it: on the first command.
    pub fn new() -> (menu: MenuSelection)
        ensures
            menu.selected == MenuOption::Fight,
    {
        MenuSelection { selected: MenuOption::Fight }
    }

    /// Whether the button of command `id` is drawn highlighted.
    pub fn highlights(&self, id: MenuOption) -> (highlighted: bool)
        ensures
            highlighted == (self.selected == id),
    {
        self.selected == id
    }
}

/// The keys of the fight menu that went down in this frame.
#[derive(Debug, Clone, Copy, PartialEq, Eq, Structural)]
pub struct Keys {
    pub left: bool,
    pub right: bool,
    pub confirm: bool,
}

impl Keys {
    /// The keys of the fight menu as `keyboard` records them: `A` moves the
    /// cursor to the left, `D` to the right, and `Return` confirms.
    pub open spec fn spec_read(keyboard: Input<KeyCode>) -> Keys {
        Keys {
            left: keys_just_pressed(keyboard).contains(Key::A),
            right: keys_just_pressed(keyboard).contains(Key::D),
            confirm: keys_just_pressed(keyboard).contains(Key::Return),
        }
    }

    /// Reads the keys of the fight menu off the keyboard.
    pub fn read(keyboard: &Input<KeyCode>) -> (keys: Keys)
        ensures
            keys == Self::spec_read(*keyboard),
    {
        Keys {
            left: just_pressed(keyboard, Key::A),
            right: just_pressed(keyboard, Key::D),
            confirm: just_pressed(keyboard, Key::Return),
        }
    }
}

/// What the hero's keys ask of the engine.
#[derive(Debug, Clone, Copy, PartialEq, Eq, Structural)]
pub enum Action {
    /// Nothing.
    Wait,
    /// Send the hero's blow to the enemy.
    Attack,
    /// Fade out of the fight into the given screen.
    Leave(GameState),
}

/// What a confirmed command asks for.
pub open spec fn spec_confirm(selected: MenuOption) -> Action {
    match selected {
        MenuOption::Fight => Action::Attack,
        MenuOption::Run => Action::Leave(GameState::Overworld),
    }
}

/// What the keys do in phase `state`: nothing outside the hero's turn; in it
/// they first move the cursor and then confirm the command it has reached.
pub open spec fn spec_input(state: State, keys: Keys, selected: MenuOption) -> (MenuOption, Action) {
    if state != State::PlayerTurn {
        (selected, Action::Wait)
    } else {
        let moved = spec_menu_move(selected, keys.left, keys.right);
        (
            moved,
            if keys.confirm {
                spec_confirm(moved)
            } else {
                Action::Wait
            },
        )
    }
}

/// Handles the keyboard in a fight: reads the keys of the fight menu and
/// does with them what `menu_input` does.
pub fn player_input(state: State, keyboard: &Input<KeyCode>, menu: &mut MenuSelection) -> (action: Action)
    ensures
        (final(menu).selected, action) == spec_input(
            state,
            Keys::spec_read(*keyboard),
            old(menu).selected,
        ),
{
    let keys = Keys::read(keyboard);
    menu_input(state, &keys, menu)
}

/// Handles the keys of the fight menu.
pub fn menu_input(state: State, keys: &Keys, menu: &mut MenuSelection) -> (action: Action)
    ensures
        (final(menu).selected, action) == spec_input(state, *keys, old(menu).selected),
{
    if state != State::PlayerTurn {
        return Action::Wait;
    }
    let mut new_selection: isize = menu.selected.index();

    if keys.left {
        new_selection -= 1;
    }
    if keys.right {
        new_selection += 1;
    }
    new_selection = (new_selection + MENU_SIZE) % MENU_SIZE;

    menu.selected = MenuOption::at(new_selection);

    if keys.confirm {
        match menu.selected {
            MenuOption::Fight => Action::Attack,
            MenuOption::Run => Action::Leave(GameState::Overworld),
        }
    } else {
        Action::Wait
    }
}

/// With two commands in the menu, a key that moves the cursor moves it to
/// the other command, whichever key it is; both keys at once, or neither,
/// leave it where it is.
pub proof fn lemma_menu_move_toggles(from: MenuOption, left: bool, right: bool)
    ensures
        left == right ==> spec_menu_move(from, left, right) == from,
        left != right ==> spec_menu_move(from, left, right) != from,
        spec_menu_move(spec_menu_move(from, left, right), left, right) == from,
{
}

/// The phase a fight opens with.
pub fn player_goes_first() -> (state: State)
    ensures
        state == State::PlayerTurn,
{
    State::PlayerTurn
}

/// The hero's blow: as strong as the hero's attack, aimed at `enemy`, and
/// followed by the animation of the hero's attack.
pub fn player_attack(player: &Stats, enemy: bevy::ecs::entity::Entity) -> (event: Event)
    ensures
        event.target == enemy,
        event.damage_amount == player.attack,
        event.next_state == State::PlayerAttack,
{
    Event { target: enemy, damage_amount: player.attack, next_state: State::PlayerAttack }
}

/// The enemy's turn: a blow as strong as the enemy's attack, aimed at
/// `player`, and followed by the animation of the enemy's attack.
pub fn enemy_turn(enemy: &Stats, player: bevy::ecs::entity::Entity) -> (event: Event)
    ensures
        event.target == player,
        event.damage_amount == enemy.attack,
        event.next_state == State::EnemyAttack,
{
    Event { target: player, damage_amount: enemy.attack, next_state: State::EnemyAttack }
}

/// How an attack is shown.
#[derive(Debug, Clone, Copy, PartialEq, Eq, Structural)]
pub enum Effect {
    /// The enemy blinks.
    Flash,
    /// The camera shakes.
    Shake,
}

/// One frame of an attack animation.
#[derive(Debug, Clone, Copy, PartialEq, Eq, Structural)]
pub struct AttackFrame {
    pub effect: Effect,
    /// The phase to enter where the animation is over. The enemy is then
    /// shown, whatever the blinking left of it.
    pub next_state: Option<State>,
}

/// How the attack of phase `state` is shown: the enemy blinks under the
/// hero's blow, the camera shakes under the enemy's.
pub open spec fn spec_effect(state: State) -> Effect {
    if state == State::PlayerAttack {
        Effect::Flash
    } else {
        Effect::Shake
    }
}

/// The phase that follows the attack of phase `state`: the turn passes to
/// the other side.
pub open spec fn spec_after_attack(state: State) -> State {
    if state == State::PlayerAttack {
        State::EnemyTurn
    } else {
        State::PlayerTurn
    }
}

/// One frame of the attack animation of phase `state`, given whether its
/// timer has just run out.
pub fn attack_effects(state: State, timer_finished: bool) -> (frame: AttackFrame)
    requires
        state.is_attack(),
    ensures
        frame.effect == spec_effect(state),
        frame.next_state == (if timer_finished {
            Some(spec_after_attack(state))
        } else {
            None
        }),
{
    match state {
        State::PlayerAttack => AttackFrame {
            effect: Effect::Flash,
            next_state: if timer_finished {
                Some(State::EnemyTurn)
            } else {
                None
            },
        },
        _ => AttackFrame {
            effect: Effect::Shake,
            next_state: if timer_finished {
                Some(State::PlayerTurn)
            } else {
                None
            },
        },
    }
}

/// The line that shows a fighter's health.
pub fn health_text(health: isize) -> (text: String)
    ensures
        text@ == "Health: "@ + spec_decimal(health as int),
        spec_can_spell(text@),
{
    let mut text = String::from_str("Health: ");
    let number = decimal(health);
    text.append(number.as_str());
    proof {
        reveal_strlit("Health: ");
        lemma_decimal_can_be_spelt(health as int);
        lemma_can_spell_concat("Health: "@, spec_decimal(health as int));
    }
    text
}

/// Experience a won fight is worth.
pub const EXP_REWARD: usize = 10;

/// The line that announces the reward of a won fight.
pub fn reward_text() -> (text: String)
    ensures
        text@ == "Earned "@ + spec_decimal(EXP_REWARD as int) + " exp"@,
        spec_can_spell(text@),
{
    let mut text = String::from_str("Earned ");
    let number = decimal(EXP_REWARD as isize);
    text.append(number.as_str());
    text.append(" exp");
    proof {
        reveal_strlit("Earned ");
        reveal_strlit(" exp");
        lemma_decimal_can_be_spelt(EXP_REWARD as int);
        lemma_can_spell_concat("Earned "@, spec_decimal(EXP_REWARD as int));
        lemma_can_spell_concat("Earned "@ + spec_decimal(EXP_REWARD as int), " exp"@);
    }
    text
}

/// Pays out a won fight: the hero earns the reward, and the result is the
/// line that says so. The reward is counted as it is; it buys no level.
pub fn reward(player: &mut Player) -> (text: String)
    requires
        old(player).experience + EXP_REWARD <= usize::MAX,
    ensures
        final(player).experience == old(player).experience + EXP_REWARD,
        final(player).active == old(player).active,
        text@ == "Earned "@ + spec_decimal(EXP_REWARD as int) + " exp"@,
        spec_can_spell(text@),
{
    player.experience += EXP_REWARD;
    reward_text()
}

/// Where the reward screen leads: back to the overworld once the key that
/// accepts the reward has gone down, and nowhere before.
pub open spec fn spec_leave_reward(accept_pressed: bool) -> Option<GameState> {
    if accept_pressed {
        Some(GameState::Overworld)
    } else {
        None
    }
}

/// Waits on the reward screen for `Space`, the key that accepts the reward.
/// The result is the screen to fade to, if any.
pub fn accept_reward(keyboard: &Input<KeyCode>) -> (fade_to: Option<GameState>)
    ensures
        fade_to == spec_leave_reward(keys_just_pressed(*keyboard).contains(Key::Space)),
{
    leave_reward(just_pressed(keyboard, Key::Space))
}

/// Leaves the reward screen where the key that accepts the reward has gone
/// down. The result is the screen to fade to, if any.
pub fn leave_reward(accept_pressed: bool) -> (fade_to: Option<GameState>)
    ensures
        fade_to == spec_leave_reward(accept_pressed),
{
    if accept_pressed {
        Some(GameState::Overworld)
    } else {
        None
    }
}

/// A blow never leaves less than no health, and a target with no health
/// left ends the fight whatever the blow asked for next.
pub proof fn lemma_health_after_bounds(stats: Stats, damage_amount: int, next_state: State)
    ensures
        spec_health_after(stats, damage_amount) >= 0,
        spec_state_after(spec_health_after(stats, damage_amount), next_state) == State::Reward
            <==> (spec_health_after(stats, damage_amount) == 0 || next_state == State::Reward),
{
}

/// A blow stronger than the target's defence costs a target that still
/// stands some of its health; a blow no stronger than the defence costs it
/// none.
pub proof fn lemma_damage_against_defense(stats: Stats, damage_amount: int)
    requires
        stats.health > 0,
    ensures
        damage_amount > stats.defense ==> spec_health_after(stats, damage_amount) < stats.health,
        damage_amount <= stats.defense ==> spec_health_after(stats, damage_amount) >= stats.health,
{
}

/// The target after `blows` blows of `damage_amount` each.
pub open spec fn spec_after_blows(stats: Stats, damage_amount: int, blows: nat) -> Stats
    decreases blows,
{
    if blows == 0 {
        stats
    } else {
        let before = spec_after_blows(stats, damage_amount, (blows - 1) as nat);
        Stats {
            health: spec_health_after(before, damage_amount) as isize,
            max_health: before.max_health,
            attack: before.attack,
            defense: before.defense,
        }
    }
}

/// A fight comes to an end: blows stronger than the target's defence bring
/// any target down, and as many of them as the target has health always do.
pub proof fn lemma_blows_bring_the_target_down(stats: Stats, damage_amount: int, blows: nat)
    requires
        damage_amount > stats.defense,
        0 <= stats.health <= blows,
    ensures
        spec_after_blows(stats, damage_amount, blows).health == 0,
{
    lemma_health_under_blows(stats, damage_amount, blows);
}

proof fn lemma_health_under_blows(stats: Stats, damage_amount: int, blows: nat)
    requires
        damage_amount > stats.defense,
        0 <= stats.health,
    ensures
        spec_after_blows(stats, damage_amount, blows).defense == stats.defense,
        0 <= spec_after_blows(stats, damage_amount, blows).health,
        spec_after_blows(stats, damage_amount, blows).health <= stats.health,
        spec_after_blows(stats, damage_amount, blows).health + blows <= stats.health
            || spec_after_blows(stats, damage_amount, blows).health == 0,
    decreases blows,
{
    if blows > 0 {
        lemma_health_under_blows(stats, damage_amount, (blows - 1) as nat);
    }
}

/// The turn goes round: the hero's attack is followed by the enemy's turn
/// and the enemy's attack by the hero's, and neither leads into another
/// attack.
pub proof fn lemma_attacks_alternate(state: State)
    requires
        state.is_attack(),
    ensures
        !spec_after_attack(state).is_attack(),
        state == State::PlayerAttack ==> spec_after_attack(state) == State::EnemyTurn,
        state == State::EnemyAttack ==> spec_after_attack(state) == State::PlayerTurn,
{
}

} // verus!
