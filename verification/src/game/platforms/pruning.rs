//! Taking platforms off the list once they have scrolled out of view.

use vstd::prelude::*;
use crate::game::platforms::{Platform, Platforms};
use crate::game::Game;
use crate::generic::ScreenInformation;

verus! {

/// What one pass of pruning decided.
#[derive(Debug)]
pub struct DespawnOutcome {
    /// For each tile handed in, whether it is to be removed from the screen.
    pub despawned: Vec<bool>,
    /// How many platforms left the list, each worth one point and one signal that the
    /// score went up.
    pub score_increases: usize,
}

/// Whether a platform lies wholly above the visible area.
pub open spec fn off_screen(platform: Platform, screen: ScreenInformation) -> bool {
    platform.hitbox[1].min > screen.y_visible_area.max
}

/// The indices of the platforms that have a tile among `tiles` and are off screen.
/// Each tile is given as the platform that owns it.
pub open spec fn off_screen_indices(tiles: Seq<Platform>, screen: ScreenInformation) -> Set<u32> {
    Set::new(
        |index: u32|
            exists|t: int|
                0 <= t < tiles.len() && (#[trigger] tiles[t]).index == index && off_screen(
                    tiles[t],
                    screen,
                ),
    )
}

/// How many platforms a pass of pruning takes from a list of `listed` platforms when
/// the off-screen tiles belong to `gone` distinct platforms: one for each, as long as
/// there are any left.
pub open spec fn pruned_count(gone: nat, listed: nat) -> nat {
    if gone <= listed {
        gone
    } else {
        listed
    }
}

/// Looking at one more tile adds its platform's index if that platform is off screen,
/// and nothing otherwise.
proof fn lemma_off_screen_indices_step(tiles: Seq<Platform>, t: int, screen: ScreenInformation)
    requires
        0 <= t < tiles.len(),
    ensures
        off_screen_indices(tiles.take(t + 1), screen) == if off_screen(tiles[t], screen) {
            off_screen_indices(tiles.take(t), screen).insert(tiles[t].index)
        } else {
            off_screen_indices(tiles.take(t), screen)
        },
{
    let shorter = tiles.take(t);
    let longer = tiles.take(t + 1);
    let target = if off_screen(tiles[t], screen) {
        off_screen_indices(shorter, screen).insert(tiles[t].index)
    } else {
        off_screen_indices(shorter, screen)
    };
    assert forall|index: u32|
        off_screen_indices(longer, screen).contains(index) == target.contains(index) by {
        if off_screen_indices(longer, screen).contains(index) {
            let w = choose|w: int|
                0 <= w < longer.len() && (#[trigger] longer[w]).index == index && off_screen(
                    longer[w],
                    screen,
                );
            if w < t {
                assert(shorter[w] == longer[w]);
            }
        }
        if target.contains(index) {
            if off_screen_indices(shorter, screen).contains(index) {
                let w = choose|w: int|
                    0 <= w < shorter.len() && (#[trigger] shorter[w]).index == index
                        && off_screen(shorter[w], screen);
                assert(longer[w] == shorter[w]);
            } else {
                assert(longer[t] == tiles[t]);
            }
        }
    }
    assert(off_screen_indices(longer, screen) =~= target);
}

/// Whether `index` is among `indices`.
fn contains_index(indices: &Vec<u32>, index: u32) -> (found: bool)
    ensures
        found == indices@.contains(index),
{
    let mut i: usize = 0;
    while i < indices.len()
        invariant
            i <= indices.len(),
            forall|j: int| 0 <= j < i ==> indices@[j] != index,
        decreases indices.len() - i,
    {
        if indices[i] == index {
            return true;
        }
        i += 1;
    }
    false
}

/// Taking platforms from the front of a well-formed list leaves a well-formed list.
pub proof fn lemma_front_removal_keeps_wf(before: Platforms, after: Platforms, removed: int)
    requires
        before.wf(),
        0 <= removed <= before.platforms_vec@.len(),
        after.platforms_vec@ == before.platforms_vec@.skip(removed),
        after.total_platforms == before.total_platforms,
    ensures
        after.wf(),
{
    let old_list = before.platforms_vec@;
    let new_list = after.platforms_vec@;
    assert forall|i: int| 0 <= i < new_list.len() implies (#[trigger] new_list[i]).index
        == after.total_platforms - new_list.len() + i && new_list[i].wf() by {
        assert(new_list[i] == old_list[i + removed]);
    }
    assert forall|i: int, j: int| 0 <= i && j == i + 1 && j < new_list.len() implies (
    #[trigger] new_list[j]).side == (#[trigger] new_list[i]).side.reverse() && new_list[j].hitbox[1].min
        <= new_list[i].hitbox[1].min by {
        assert(new_list[i] == old_list[i + removed]);
        assert(new_list[j] == old_list[j + removed]);
    }
}

/// Decides which tiles have scrolled out of view, takes their platforms from the list
/// and awards the score for them.
///
/// `tiles` holds, for every tile on screen, the platform that owns it. A tile is to be
/// despawned when its platform lies wholly above the visible area. The first time a
/// platform's index is seen on such a tile, the score goes up by one and the oldest
/// platform leaves the list, if there is one; further tiles of that platform count for
/// nothing.
pub fn despawn_platforms(
    tiles: &Vec<Platform>,
    platforms: &mut Platforms,
    game: &mut Game,
    screen_information: &ScreenInformation,
) -> (outcome: DespawnOutcome)
    requires
        old(game).score + tiles.len() <= i32::MAX,
    ensures
        outcome.despawned.len() == tiles.len(),
        forall|t: int|
            0 <= t < tiles.len() ==> outcome.despawned@[t] == off_screen(
                #[trigger] tiles@[t],
                *screen_information,
            ),
        outcome.score_increases == off_screen_indices(tiles@, *screen_information).len(),
        final(game).score == old(game).score + outcome.score_increases,
        final(game).difficulty == old(game).difficulty,
        final(platforms).total_platforms == old(platforms).total_platforms,
        final(platforms).platforms_vec@ == old(platforms).platforms_vec@.skip(
            pruned_count(outcome.score_increases as nat, old(platforms).platforms_vec@.len()) as int,
        ),
        old(platforms).wf() ==> final(platforms).wf(),
{
    // Indices of the platforms that this pass has taken from the list.
    let mut removed_indices: Vec<u32> = Vec::new();
    let mut despawned: Vec<bool> = Vec::new();
    let mut t: usize = 0;
    proof {
        assert(off_screen_indices(tiles@.take(0), *screen_information) =~= Set::<u32>::empty());
        assert(removed_indices@.to_set() =~= Set::<u32>::empty());
        assert(platforms.platforms_vec@.skip(0) =~= platforms.platforms_vec@);
    }
    while t < tiles.len()
        invariant
            t <= tiles.len(),
            despawned.len() == t,
            forall|u: int|
                0 <= u < t ==> despawned@[u] == off_screen(
                    #[trigger] tiles@[u],
                    *screen_information,
                ),
            removed_indices.len() <= t,
            removed_indices@.no_duplicates(),
            removed_indices@.to_set() == off_screen_indices(
                tiles@.take(t as int),
                *screen_information,
            ),
            game.score == old(game).score + removed_indices.len(),
            old(game).score + tiles.len() <= i32::MAX,
            game.difficulty == old(game).difficulty,
            platforms.total_platforms == old(platforms).total_platforms,
            platforms.platforms_vec@ == old(platforms).platforms_vec@.skip(
                pruned_count(
                    removed_indices.len() as nat,
                    old(platforms).platforms_vec@.len(),
                ) as int,
            ),
            old(platforms).wf() ==> platforms.wf(),
        decreases tiles.len() - t,
    {
        let platform = tiles[t];
        let gone = platform.hitbox[1].min > screen_information.y_visible_area.max;
        proof {
            lemma_off_screen_indices_step(tiles@, t as int, *screen_information);
        }
        if gone {
            // A platform is taken from the list only once, however many tiles it has.
            if !contains_index(&removed_indices, platform.index) {
                game.score += 1;

                let ghost indices_before = removed_indices@;
                let ghost list_before = *platforms;
                removed_indices.push(platform.index);
                proof {
                    assert forall|index: u32|
                        removed_indices@.to_set().contains(index) == indices_before.to_set().insert(
                            platform.index,
                        ).contains(index) by {
                        vstd::seq_lib::lemma_seq_contains_after_push(
                            indices_before,
                            platform.index,
                            index,
                        );
                    }
                    assert(removed_indices@.to_set() =~= indices_before.to_set().insert(
                        platform.index,
                    ));
                }
                if platforms.platforms_vec.len() > 0 {
                    platforms.platforms_vec.remove(0);
                    proof {
                        assert(platforms.platforms_vec@ =~= list_before.platforms_vec@.skip(1));
                        assert(platforms.platforms_vec@ =~= old(platforms).platforms_vec@.skip(
                            pruned_count(
                                removed_indices.len() as nat,
                                old(platforms).platforms_vec@.len(),
                            ) as int,
                        ));
                        if old(platforms).wf() {
                            lemma_front_removal_keeps_wf(list_before, *platforms, 1);
                        }
                    }
                }
            } else {
                proof {
                    assert(removed_indices@.to_set().insert(platform.index)
                        =~= removed_indices@.to_set());
                }
            }
        }
        despawned.push(gone);
        t += 1;
    }
    proof {
        assert(tiles@.take(tiles.len() as int) =~= tiles@);
        removed_indices@.unique_seq_to_set();
    }
    DespawnOutcome { despawned, score_increases: removed_indices.len() }
}

/// A further tile of a platform that an off-screen tile has already been seen of
/// changes nothing: the same platforms count, so the score rises by the same amount.
pub proof fn lemma_repeated_tile_counts_once(
    tiles: Seq<Platform>,
    seen: int,
    again: Platform,
    screen: ScreenInformation,
)
    requires
        0 <= seen < tiles.len(),
        off_screen(tiles[seen], screen),
        again.index == tiles[seen].index,
    ensures
        off_screen_indices(tiles.push(again), screen) == off_screen_indices(tiles, screen),
        off_screen_indices(tiles.push(again), screen).len() == off_screen_indices(
            tiles,
            screen,
        ).len(),
{
    let longer = tiles.push(again);
    assert(longer.take(tiles.len() as int) =~= tiles);
    lemma_off_screen_indices_step(longer, tiles.len() as int, screen);
    assert(off_screen_indices(tiles, screen).contains(again.index));
    assert(off_screen_indices(tiles, screen).insert(again.index) =~= off_screen_indices(
        tiles,
        screen,
    ));
}

/// Pruning takes platforms from the front only: what stays is the list without its
/// first `removed` entries, in the same order, and every platform that stays was
/// spawned after every platform that left.
pub proof fn lemma_removal_is_fifo(platforms: Platforms, removed: int, gone: int, kept: int)
    requires
        platforms.wf(),
        0 <= removed <= platforms.platforms_vec@.len(),
        0 <= gone < removed,
        0 <= kept < platforms.platforms_vec@.len() - removed,
    ensures
        platforms.platforms_vec@.skip(removed)[kept] == platforms.platforms_vec@[removed + kept],
        platforms.platforms_vec@[gone].index < platforms.platforms_vec@.skip(removed)[kept].index,
{
}

/// How many platforms at the front of the list are off screen, up to the first one
/// that is not.
pub open spec fn leading_off_screen(platforms: Seq<Platform>, screen: ScreenInformation) -> nat
    decreases platforms.len(),
{
    if platforms.len() == 0 || !off_screen(platforms[0], screen) {
        0
    } else {
        1 + leading_off_screen(platforms.skip(1), screen)
    }
}

/// Whether the tiles on screen and the list of platforms belong together: every tile
/// is owned by a platform of the list, and every platform of the list that is off
/// screen still has a tile.
pub open spec fn tiles_match(
    tiles: Seq<Platform>,
    platforms: Seq<Platform>,
    screen: ScreenInformation,
) -> bool {
    &&& forall|t: int| 0 <= t < tiles.len() ==> platforms.contains(#[trigger] tiles[t])
    &&& forall|i: int|
        0 <= i < platforms.len() && off_screen(#[trigger] platforms[i], screen)
            ==> tiles.contains(platforms[i])
}

/// In a well-formed list no platform ends above an older one, however far apart the
/// two are.
pub proof fn lemma_older_platforms_are_higher(platforms: Platforms, older: int, newer: int)
    requires
        platforms.wf(),
        0 <= older <= newer < platforms.platforms_vec@.len(),
    ensures
        platforms.platforms_vec@[newer].hitbox[1].min <= platforms.platforms_vec@[older].hitbox[1].min,
    decreases newer - older,
{
    if older < newer {
        lemma_older_platforms_are_higher(platforms, older, newer - 1);
        let list = platforms.platforms_vec@;
        assert(list[newer].hitbox[1].min <= list[newer - 1].hitbox[1].min);
    }
}

/// The platforms counted by `leading_off_screen` are off screen, and the one after
/// them, if any, is not.
proof fn lemma_leading_off_screen(platforms: Seq<Platform>, screen: ScreenInformation)
    ensures
        leading_off_screen(platforms, screen) <= platforms.len(),
        forall|i: int|
            0 <= i < leading_off_screen(platforms, screen) ==> off_screen(
                #[trigger] platforms[i],
                screen,
            ),
        leading_off_screen(platforms, screen) < platforms.len() ==> !off_screen(
            platforms[leading_off_screen(platforms, screen) as int],
            screen,
        ),
    decreases platforms.len(),
{
    if platforms.len() > 0 && off_screen(platforms[0], screen) {
        let rest = platforms.skip(1);
        lemma_leading_off_screen(rest, screen);
        assert forall|i: int| 0 <= i < leading_off_screen(platforms, screen) implies off_screen(
            #[trigger] platforms[i],
            screen,
        ) by {
            if i > 0 {
                assert(platforms[i] == rest[i - 1]);
            }
        }
        if leading_off_screen(platforms, screen) < platforms.len() {
            assert(platforms[leading_off_screen(platforms, screen) as int]
                == rest[leading_off_screen(rest, screen) as int]);
        }
    }
}

/// When tiles and list belong together, pruning removes exactly the platforms that
/// have left the screen: they are the first platforms of the list, each of them counts
/// once, and none of the platforms after them is off screen.
pub proof fn lemma_pruning_removes_what_left(
    platforms: Platforms,
    tiles: Seq<Platform>,
    screen: ScreenInformation,
)
    requires
        platforms.wf(),
        tiles_match(tiles, platforms.platforms_vec@, screen),
    ensures
        off_screen_indices(tiles, screen).len() == leading_off_screen(
            platforms.platforms_vec@,
            screen,
        ),
        pruned_count(off_screen_indices(tiles, screen).len(), platforms.platforms_vec@.len())
            == leading_off_screen(platforms.platforms_vec@, screen),
        forall|i: int|
            0 <= i < platforms.platforms_vec@.len() ==> (off_screen(
                #[trigger] platforms.platforms_vec@[i],
                screen,
            ) <==> i < leading_off_screen(platforms.platforms_vec@, screen)),
{
    let list = platforms.platforms_vec@;
    let count = leading_off_screen(list, screen) as int;
    lemma_leading_off_screen(list, screen);
    assert forall|i: int| 0 <= i < list.len() implies (off_screen(#[trigger] list[i], screen) <==> i
        < count) by {
        if i >= count {
            lemma_older_platforms_are_higher(platforms, count, i);
        }
    }
    let gone = Seq::new(count as nat, |i: int| list[i].index);
    assert(gone.no_duplicates());
    assert forall|index: u32| gone.to_set().contains(index) == off_screen_indices(
        tiles,
        screen,
    ).contains(index) by {
        if gone.to_set().contains(index) {
            let i = choose|i: int| 0 <= i < gone.len() && gone[i] == index;
            assert(off_screen(list[i], screen));
            assert(tiles.contains(list[i]));
            let t = choose|t: int| 0 <= t < tiles.len() && tiles[t] == list[i];
            assert(tiles[t].index == index && off_screen(tiles[t], screen));
        }
        if off_screen_indices(tiles, screen).contains(index) {
            let t = choose|t: int|
                0 <= t < tiles.len() && (#[trigger] tiles[t]).index == index && off_screen(
                    tiles[t],
                    screen,
                );
            assert(list.contains(tiles[t]));
            let i = choose|i: int| 0 <= i < list.len() && list[i] == tiles[t];
            assert(off_screen(list[i], screen));
            assert(gone[i] == index);
        }
    }
    assert(gone.to_set() =~= off_screen_indices(tiles, screen));
    gone.unique_seq_to_set();
}

} // verus!
