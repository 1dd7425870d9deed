//! The guides of the tutorial, by the name of the screen that each explains.

use vstd::prelude::*;
use crate::utils::helpers::same_text;

verus! {

/// The name of the guide to the main menu.
pub const MAIN_MENU_KEY: &'static str = "main_menu";

/// The name of the guide to the profile of the player.
pub const PLAYER_PROFILE_KEY: &'static str = "player_profile";

/// The name of the guide to the information on the team.
pub const TEAM_INFO_KEY: &'static str = "team_info";

/// The name of the guide to the match report.
pub const MATCH_REPORT_KEY: &'static str = "match_report";

/// The name of the guide to the choice of training.
pub const TRAINING_SELECTION_KEY: &'static str = "training_selection";

pub const MAIN_MENU_TITLE: &'static str = "Main Menu Guide";

pub const MAIN_MENU_CONTENT: &'static str =
    "The Main Menu is your central hub.\n- View Profile: Check your attributes and status.\n- Team Info: See details about your current club.\n- Continue: Advance time to the next important event.\n\nTip: You can type 'help' or 'h' at any menu to see this guide again.";

pub const PLAYER_PROFILE_TITLE: &'static str = "Player Profile Guide";

pub const PLAYER_PROFILE_CONTENT: &'static str =
    "This screen shows your current attributes and status.\n- Attributes are split into Technical, Physical, and Mental.\n- Attributes grow through training and match experience.\n- Keep an eye on your Contract expiry date!";

pub const TEAM_INFO_TITLE: &'static str = "Team Information Guide";

pub const TEAM_INFO_CONTENT: &'static str =
    "Here you can see details about your club.\n- Reputation affects the quality of players attracted to the club.\n- Facilities affect your training effectiveness and development.";

pub const MATCH_REPORT_TITLE: &'static str = "Match Report Guide";

pub const MATCH_REPORT_CONTENT: &'static str =
    "This summary appears after every match.\n- Rating: Your performance score (1-10).\n- Key Events: Highlights of your involvement.\n- Consistent high ratings lead to faster development and better contract offers.";

pub const TRAINING_SELECTION_TITLE: &'static str = "Training Selection Guide";

pub const TRAINING_SELECTION_CONTENT: &'static str =
    "Weekly training is crucial for development.\n- Technical: Improves ball skills (Dribbling, Passing, etc.).\n- Physical: Improves athleticism (Pace, Strength, etc.).\n- Tactical: Improves mental attributes (Positioning, Vision).\n- Rest: Recovers fatigue but pauses development.";

/// What a guide says.
#[derive(Debug, Clone, PartialEq, Eq)]
pub struct TutorialGuide {
    pub title: String,
    pub content: String,
}

/// The guides of the tutorial. Of several guides of a name the first
/// counts; the manager never holds more than one.
pub struct TutorialManager {
    guides: Vec<(String, TutorialGuide)>,
}

/// Whether the guide at `index` is the first of the given name.
pub open spec fn is_first_guide(guides: Seq<(String, TutorialGuide)>, index: int, key: Seq<char>)
    -> bool {
    &&& 0 <= index < guides.len()
    &&& guides[index].0@ == key
    &&& forall|j: int| 0 <= j < index ==> (#[trigger] guides[j]).0@ != key
}

/// The first guide of a name is the only first guide of that name.
pub proof fn lemma_first_guide_unique(
    guides: Seq<(String, TutorialGuide)>,
    first: int,
    second: int,
    key: Seq<char>,
)
    requires
        is_first_guide(guides, first, key),
        is_first_guide(guides, second, key),
    ensures
        first == second,
{
    if first < second {
        assert(guides[first].0@ != key);
    } else if second < first {
        assert(guides[second].0@ != key);
    }
}

/// The title and the content of the guide that a new manager has of the
/// given name, if it has one.
pub open spec fn default_guide(key: Seq<char>) -> Option<(Seq<char>, Seq<char>)> {
    if key == MAIN_MENU_KEY@ {
        Some((MAIN_MENU_TITLE@, MAIN_MENU_CONTENT@))
    } else if key == PLAYER_PROFILE_KEY@ {
        Some((PLAYER_PROFILE_TITLE@, PLAYER_PROFILE_CONTENT@))
    } else if key == TEAM_INFO_KEY@ {
        Some((TEAM_INFO_TITLE@, TEAM_INFO_CONTENT@))
    } else if key == MATCH_REPORT_KEY@ {
        Some((MATCH_REPORT_TITLE@, MATCH_REPORT_CONTENT@))
    } else if key == TRAINING_SELECTION_KEY@ {
        Some((TRAINING_SELECTION_TITLE@, TRAINING_SELECTION_CONTENT@))
    } else {
        None
    }
}

impl TutorialManager {
    /// Whether there is a guide of the given name.
    pub closed spec fn has_guide(&self, key: Seq<char>) -> bool {
        exists|i: int| #[trigger] is_first_guide(self.guides@, i, key)
    }

    /// The title and the content of the guide of the given name.
    pub closed spec fn guide_text(&self, key: Seq<char>) -> (Seq<char>, Seq<char>)
        recommends
            self.has_guide(key),
    {
        let i = choose|i: int| #[trigger] is_first_guide(self.guides@, i, key);
        (self.guides@[i].1.title@, self.guides@[i].1.content@)
    }

    /// The guide of the given name, as a new manager has it.
    pub open spec fn is_default(&self) -> bool {
        forall|key: Seq<char>|
            (#[trigger] self.has_guide(key) <==> default_guide(key) is Some) && (self.has_guide(key)
                ==> Some(self.guide_text(key)) == default_guide(key))
    }

    /// A manager with the five guides of the game: to the main menu, the
    /// profile of the player, the information on the team, the match report
    /// and the choice of training.
    pub fn new() -> (manager: TutorialManager)
        ensures
            manager.is_default(),
    {
        let mut manager = TutorialManager { guides: Vec::new() };
        manager.register_default_guides();
        manager
    }

    /// The place of the guide of the given name.
    fn guide_index(&self, key: &str) -> (place: Option<usize>)
        ensures
            place is Some <==> self.has_guide(key@),
            place matches Some(index) ==> is_first_guide(self.guides@, index as int, key@)
                && self.guide_text(key@) == (
                self.guides@[index as int].1.title@,
                self.guides@[index as int].1.content@,
            ),
    {
        let mut i: usize = 0;
        while i < self.guides.len()
            invariant
                0 <= i <= self.guides@.len(),
                forall|j: int| 0 <= j < i ==> (#[trigger] self.guides@[j]).0@ != key@,
            decreases self.guides@.len() - i,
        {
            if same_text(&self.guides[i].0, key) {
                proof {
                    assert(is_first_guide(self.guides@, i as int, key@));
                    let chosen = choose|c: int| #[trigger] is_first_guide(self.guides@, c, key@);
                    lemma_first_guide_unique(self.guides@, chosen, i as int, key@);
                }
                return Some(i);
            }
            i = i + 1;
        }
        proof {
            if self.has_guide(key@) {
                let chosen = choose|c: int| #[trigger] is_first_guide(self.guides@, c, key@);
                assert(self.guides@[chosen].0@ != key@);
            }
        }
        None
    }

    /// Registers a guide under a name. A guide that was registered under
    /// that name before is replaced.
    pub fn register_guide(&mut self, key: &str, title: &str, content: &str)
        ensures
            forall|other: Seq<char>|
                #[trigger] final(self).has_guide(other) <==> (old(self).has_guide(other) || other
                    == key@),
            final(self).guide_text(key@) == (title@, content@),
            forall|other: Seq<char>|
                other != key@ && old(self).has_guide(other) ==> #[trigger] final(self).guide_text(
                    other,
                ) == old(self).guide_text(other),
    {
        let ghost before = self.guides@;
        let guide = TutorialGuide { title: title.to_owned(), content: content.to_owned() };
        let found: Option<usize> = self.guide_index(key);
        match found {
            Some(index) => {
                self.guides[index].1 = guide;
            },
            None => {
                self.guides.push((key.to_owned(), guide));
            },
        }
        proof {
            let after = self.guides@;
            let place: int = match found {
                Some(index) => index as int,
                None => before.len() as int,
            };
            assert forall|j: int| 0 <= j < place implies (#[trigger] before[j]).0@ != key@ by {
                if before[j].0@ == key@ {
                    lemma_some_first(before, j, key@);
                    let first = choose|first: int| #[trigger] is_first_guide(before, first, key@);
                    match found {
                        Some(index) => {
                            lemma_first_guide_unique(before, first, index as int, key@);
                        },
                        None => {},
                    }
                }
            }
            assert(is_first_guide(after, place, key@)) by {
                assert forall|j: int| 0 <= j < place implies (#[trigger] after[j]).0@ != key@ by {
                    assert(before[j].0@ != key@);
                }
            }
            assert forall|i: int, other: Seq<char>| other != key@ implies (is_first_guide(
                after,
                i,
                other,
            ) <==> is_first_guide(before, i, other)) by {
                if is_first_guide(after, i, other) {
                    assert(i < before.len());
                    assert forall|j: int| 0 <= j < i implies (#[trigger] before[j]).0@ != other by {
                        assert(after[j].0@ != other);
                    }
                }
                if is_first_guide(before, i, other) {
                    assert forall|j: int| 0 <= j < i implies (#[trigger] after[j]).0@ != other by {
                        assert(before[j].0@ != other);
                    }
                }
            }
            assert forall|other: Seq<char>| #[trigger]
                self.has_guide(other) <==> (old(self).has_guide(other) || other == key@) by {
                if other != key@ {
                    if self.has_guide(other) {
                        let i = choose|i: int| #[trigger] is_first_guide(after, i, other);
                        assert(is_first_guide(before, i, other));
                    }
                    if old(self).has_guide(other) {
                        let i = choose|i: int| #[trigger] is_first_guide(before, i, other);
                        assert(is_first_guide(after, i, other));
                    }
                }
            }
            let chosen = choose|c: int| #[trigger] is_first_guide(after, c, key@);
            lemma_first_guide_unique(after, chosen, place, key@);
            assert forall|other: Seq<char>|
                other != key@ && old(self).has_guide(other) implies #[trigger] self.guide_text(other)
                == old(self).guide_text(other) by {
                let j = choose|j: int| #[trigger] is_first_guide(before, j, other);
                assert(is_first_guide(after, j, other));
                let i = choose|i: int| #[trigger] is_first_guide(after, i, other);
                lemma_first_guide_unique(after, i, j, other);
            }
        }
    }

    /// The guide of the given name, if there is one.
    pub fn get_guide(&self, key: &str) -> (guide: Option<&TutorialGuide>)
        ensures
            guide is Some <==> self.has_guide(key@),
            guide matches Some(found) ==> (found.title@, found.content@) == self.guide_text(key@),
    {
        match self.guide_index(key) {
            Some(index) => Some(&self.guides[index].1),
            None => None,
        }
    }

    /// Registers the five guides of the game.
    pub fn register_default_guides(&mut self)
        requires
            forall|key: Seq<char>| !old(self).has_guide(key),
        ensures
            final(self).is_default(),
    {
        self.register_guide(MAIN_MENU_KEY, MAIN_MENU_TITLE, MAIN_MENU_CONTENT);
        self.register_guide(PLAYER_PROFILE_KEY, PLAYER_PROFILE_TITLE, PLAYER_PROFILE_CONTENT);
        self.register_guide(TEAM_INFO_KEY, TEAM_INFO_TITLE, TEAM_INFO_CONTENT);
        self.register_guide(MATCH_REPORT_KEY, MATCH_REPORT_TITLE, MATCH_REPORT_CONTENT);
        self.register_guide(
            TRAINING_SELECTION_KEY,
            TRAINING_SELECTION_TITLE,
            TRAINING_SELECTION_CONTENT,
        );
        proof {
            lemma_names_differ();
        }
    }
}

/// Where some guide has a name, there is a first guide of that name.
pub proof fn lemma_some_first(guides: Seq<(String, TutorialGuide)>, index: int, key: Seq<char>)
    requires
        0 <= index < guides.len(),
        guides[index].0@ == key,
    ensures
        exists|first: int| #[trigger] is_first_guide(guides, first, key),
    decreases index,
{
    if exists|j: int| 0 <= j < index && (#[trigger] guides[j]).0@ == key {
        let j = choose|j: int| 0 <= j < index && (#[trigger] guides[j]).0@ == key;
        lemma_some_first(guides, j, key);
    } else {
        assert(is_first_guide(guides, index, key));
    }
}

/// The names of the five guides of the game differ from one another.
pub proof fn lemma_names_differ()
    ensures
        MAIN_MENU_KEY@ != PLAYER_PROFILE_KEY@,
        MAIN_MENU_KEY@ != TEAM_INFO_KEY@,
        MAIN_MENU_KEY@ != MATCH_REPORT_KEY@,
        MAIN_MENU_KEY@ != TRAINING_SELECTION_KEY@,
        PLAYER_PROFILE_KEY@ != TEAM_INFO_KEY@,
        PLAYER_PROFILE_KEY@ != MATCH_REPORT_KEY@,
        PLAYER_PROFILE_KEY@ != TRAINING_SELECTION_KEY@,
        TEAM_INFO_KEY@ != MATCH_REPORT_KEY@,
        TEAM_INFO_KEY@ != TRAINING_SELECTION_KEY@,
        MATCH_REPORT_KEY@ != TRAINING_SELECTION_KEY@,
{
    reveal_strlit("main_menu");
    reveal_strlit("player_profile");
    reveal_strlit("team_info");
    reveal_strlit("match_report");
    reveal_strlit("training_selection");
    assert(MAIN_MENU_KEY@.len() == 9 && MAIN_MENU_KEY@[0] == 'm');
    assert(PLAYER_PROFILE_KEY@.len() == 14);
    assert(TEAM_INFO_KEY@.len() == 9 && TEAM_INFO_KEY@[0] == 't');
    assert(MATCH_REPORT_KEY@.len() == 12);
    assert(TRAINING_SELECTION_KEY@.len() == 18);
}

} // verus!
