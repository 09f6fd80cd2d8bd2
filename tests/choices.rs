use rpsls::Choice;

const ALL: [Choice; 5] = [Choice::Rock, Choice::Paper, Choice::Scissors, Choice::Lizard, Choice::Spock];

#[test]
fn no_choice_defeats_itself() {
    for c in ALL.iter() {
        assert_eq!(c.wins_against(c), None);
    }
}

#[test]
fn distinct_pairs_have_exactly_one_winner() {
    for a in ALL.iter() {
        for b in ALL.iter() {
            if a != b {
                let ab = a.wins_against(b).is_some();
                let ba = b.wins_against(a).is_some();
                assert!(ab != ba, "{:?} vs {:?}", a, b);
            }
        }
    }
}

#[test]
fn each_choice_defeats_two_and_loses_to_two() {
    for a in ALL.iter() {
        let wins = ALL.iter().filter(|b| a.wins_against(b).is_some()).count();
        let losses = ALL.iter().filter(|b| b.wins_against(a).is_some()).count();
        assert_eq!(wins, 2);
        assert_eq!(losses, 2);
    }
}

#[test]
fn win_relation_verbs() {
    let table = [
        (Choice::Rock, Choice::Lizard, "crushes"),
        (Choice::Rock, Choice::Scissors, "crushes"),
        (Choice::Paper, Choice::Rock, "covers"),
        (Choice::Paper, Choice::Spock, "disproves"),
        (Choice::Scissors, Choice::Paper, "cuts"),
        (Choice::Scissors, Choice::Lizard, "decapitates"),
        (Choice::Lizard, Choice::Spock, "poisons"),
        (Choice::Lizard, Choice::Paper, "eats"),
        (Choice::Spock, Choice::Rock, "vaporizes"),
        (Choice::Spock, Choice::Scissors, "smashes"),
    ];
    for (winner, loser, verb) in table.iter() {
        assert_eq!(winner.wins_against(loser), Some(String::from(*verb)));
        assert_eq!(loser.wins_against(winner), None);
    }
}

#[test]
fn from_u32_maps_each_index() {
    assert_eq!(Choice::from_u32(0), Some(Choice::Rock));
    assert_eq!(Choice::from_u32(1), Some(Choice::Paper));
    assert_eq!(Choice::from_u32(2), Some(Choice::Scissors));
    assert_eq!(Choice::from_u32(3), Some(Choice::Lizard));
    assert_eq!(Choice::from_u32(4), Some(Choice::Spock));
}

#[test]
fn from_u32_rejects_out_of_range() {
    assert_eq!(Choice::from_u32(5), None);
    assert_eq!(Choice::from_u32(u32::MAX), None);
}

#[test]
fn display_names_round_trip_from_index() {
    let names = ["Rock", "Paper", "Scissors", "Lizard", "Spock"];
    for (i, name) in names.iter().enumerate() {
        let c = Choice::from_u32(i as u32).unwrap();
        assert_eq!(c.to_str(), *name);
    }
}
