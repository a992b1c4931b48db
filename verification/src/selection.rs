//! Random choice of the videos a grid plays.
use vstd::prelude::*;

use crate::media_files::{same_path, spec_same_path};
use crate::random::{choose_one, choose_several};
use crate::text::owned;

verus! {

/// The texts of a list of paths.
pub open spec fn spec_texts(v: Seq<String>) -> Seq<Seq<char>> {
    v.map_values(|s: String| s@)
}

/// `p` is one of the paths in `v`.
pub open spec fn spec_listed(p: Seq<char>, v: Seq<String>) -> bool {
    exists|k: int| 0 <= k < v.len() && (#[trigger] v[k])@ == p
}

/// `p` is, as a path, one of the paths in `v`.
pub open spec fn spec_playing(p: Seq<char>, v: Seq<String>) -> bool {
    exists|k: int| 0 <= k < v.len() && spec_same_path((#[trigger] v[k])@, p)
}

/// Positions `0..n`, in order.
pub(crate) fn positions(n: usize) -> (r: Vec<usize>)
    ensures
        r@.len() == n,
        forall|i: int| 0 <= i < n ==> r@[i] == i,
        r@.no_duplicates(),
{
    let mut r: Vec<usize> = Vec::new();
    let mut i: usize = 0;
    while i < n
        invariant
            i <= n,
            r@.len() == i,
            forall|j: int| 0 <= j < i ==> r@[j] == j,
        decreases n - i,
    {
        r.push(i);
        i = i + 1;
    }
    r
}

fn copy_text(s: &String) -> (r: String)
    ensures
        r@ == s@,
{
    owned(s.as_str())
}

/// `r` takes its items from `videos` at the distinct positions `pos`.
pub open spec fn spec_picked_at(pos: Seq<int>, r: Seq<String>, videos: Seq<String>) -> bool {
    &&& pos.len() == r.len()
    &&& pos.no_duplicates()
    &&& forall|k: int|
        0 <= k < r.len() ==> 0 <= #[trigger] pos[k] < videos.len() && r[k]@ == videos[pos[k]]@
}

/// Pick `n` random videos from the list: `n` taken at different positions
/// when the list has that many, otherwise `n` independent picks, repeats
/// allowed.
pub fn pick_random_videos(videos: &Vec<String>, n: usize) -> (r: Vec<String>)
    requires
        n <= videos@.len() || videos@.len() > 0,
    ensures
        r@.len() == n,
        forall|k: int| 0 <= k < n ==> spec_listed((#[trigger] r@[k])@, videos@),
        n <= videos@.len() ==> exists|pos: Seq<int>| spec_picked_at(pos, r@, videos@),
        n <= videos@.len() && spec_texts(videos@).no_duplicates() ==> spec_texts(
            r@,
        ).no_duplicates(),
{
    let len = videos.len();
    let all = positions(len);
    let mut out: Vec<String> = Vec::new();
    if len >= n {
        let picked = choose_several(all.as_slice(), n);
        let mut k: usize = 0;
        while k < picked.len()
            invariant
                k <= picked@.len(),
                picked@.len() == n,
                all@.len() == len,
                len == videos@.len(),
                forall|i: int| 0 <= i < len ==> all@[i] == i,
                forall|i: int| 0 <= i < picked@.len() ==> all@.contains(#[trigger] picked@[i]),
                all@.no_duplicates() ==> picked@.no_duplicates(),
                all@.no_duplicates(),
                out@.len() == k,
                forall|i: int| 0 <= i < k ==> (#[trigger] out@[i])@ == videos@[picked@[i] as int]@,
                forall|i: int| 0 <= i < k ==> picked@[i] < len,
            decreases picked@.len() - k,
        {
            let idx = picked[k];
            proof {
                let w = choose|w: int| 0 <= w < all@.len() && all@[w] == idx;
            }
            out.push(copy_text(&videos[idx]));
            k = k + 1;
        }
        proof {
            assert forall|i: int| 0 <= i < n implies spec_listed((#[trigger] out@[i])@, videos@) by {
                assert(videos@[picked@[i] as int]@ == out@[i]@);
            }
            let pos = picked@.map_values(|x: usize| x as int);
            assert forall|i: int, j: int| 0 <= i < pos.len() && 0 <= j < pos.len() && i != j implies pos[i]
                != pos[j] by {
                assert(picked@[i] != picked@[j]);
            }
            assert(spec_picked_at(pos, out@, videos@));
            if spec_texts(videos@).no_duplicates() {
                assert forall|i: int, j: int|
                    0 <= i < spec_texts(out@).len() && 0 <= j < spec_texts(out@).len() && i != j
                    implies spec_texts(out@)[i] != spec_texts(out@)[j] by {
                    assert(picked@[i] != picked@[j]);
                    assert(spec_texts(videos@)[picked@[i] as int] != spec_texts(
                        videos@,
                    )[picked@[j] as int]);
                }
            }
        }
    } else {
        let mut k: usize = 0;
        while k < n
            invariant
                k <= n,
                len > 0,
                all@.len() == len,
                len == videos@.len(),
                forall|i: int| 0 <= i < len ==> all@[i] == i,
                out@.len() == k,
                forall|i: int| 0 <= i < k ==> spec_listed((#[trigger] out@[i])@, videos@),
            decreases n - k,
        {
            match choose_one(all.as_slice()) {
                Some(idx) => {
                    proof {
                        let w = choose|w: int| 0 <= w < all@.len() && all@[w] == idx;
                    }
                    let ghost before = out@;
                    out.push(copy_text(&videos[idx]));
                    proof {
                        assert forall|i: int| 0 <= i < k + 1 implies spec_listed(
                            (#[trigger] out@[i])@,
                            videos@,
                        ) by {
                            if i == k {
                                assert(videos@[idx as int]@ == out@[i]@);
                            } else {
                                assert(out@[i] == before[i]);
                            }
                        }
                    }
                },
                None => {
                    proof {
                        assert(false);
                    }
                },
            }
            k = k + 1;
        }
    }
    out
}

/// Pick the video that replaces one which ended: a random one not among the
/// videos still playing, or any random one when all are playing; `None` when
/// the list is empty.
pub fn choose_replacement(video_paths: &Vec<String>, current_paths: &Vec<String>) -> (r: Option<
    String,
>)
    ensures
        r is None <==> video_paths@.len() == 0,
        r matches Some(p) ==> spec_listed(p@, video_paths@),
        r matches Some(p) ==> (!spec_playing(p@, current_paths@) || forall|i: int|
            0 <= i < video_paths@.len() ==> spec_playing(
                (#[trigger] video_paths@[i])@,
                current_paths@,
            )),
{
    let len = video_paths.len();
    let mut available: Vec<usize> = Vec::new();
    let mut i: usize = 0;
    while i < len
        invariant
            i <= len,
            len == video_paths@.len(),
            forall|k: int|
                0 <= k < available@.len() ==> (#[trigger] available@[k]) < len && !spec_playing(
                    video_paths@[available@[k] as int]@,
                    current_paths@,
                ),
            forall|j: int|
                0 <= j < i && !spec_playing(video_paths@[j]@, current_paths@)
                    ==> available@.contains(j as usize),
        decreases len - i,
    {
        let ghost prev = available@;
        let playing = is_playing(&video_paths[i], current_paths);
        if !playing {
            available.push(i);
        }
        proof {
            assert forall|j: int|
                0 <= j < i + 1 && !spec_playing(video_paths@[j]@, current_paths@) implies available@.contains(
                j as usize,
            ) by {
                if j < i {
                    let w = choose|w: int| 0 <= w < prev.len() && prev[w] == j as usize;
                    assert(available@[w] == j as usize);
                } else {
                    assert(available@[available@.len() - 1] == i);
                }
            }
        }
        i = i + 1;
    }
    if available.len() == 0 {
        proof {
            assert forall|j: int| 0 <= j < len implies spec_playing(
                (#[trigger] video_paths@[j])@,
                current_paths@,
            ) by {
                if !spec_playing(video_paths@[j]@, current_paths@) {
                    assert(available@.contains(j as usize));
                }
            }
        }
        let all = positions(len);
        match choose_one(all.as_slice()) {
            Some(k) => {
                proof {
                    let w = choose|w: int| 0 <= w < all@.len() && all@[w] == k;
                    assert(video_paths@[k as int]@ == video_paths@[k as int]@);
                }
                let p = copy_text(&video_paths[k]);
                proof {
                    assert(spec_listed(p@, video_paths@)) by {
                        assert(video_paths@[k as int]@ == p@);
                    }
                }
                Some(p)
            },
            None => None,
        }
    } else {
        match choose_one(available.as_slice()) {
            Some(k) => {
                proof {
                    let w = choose|w: int| 0 <= w < available@.len() && available@[w] == k;
                    assert(available@[w] < len);
                }
                let p = copy_text(&video_paths[k]);
                proof {
                    assert(spec_listed(p@, video_paths@)) by {
                        assert(video_paths@[k as int]@ == p@);
                    }
                }
                Some(p)
            },
            None => None,
        }
    }
}

/// Whether `path` is, as a path, one of `list`.
fn is_playing(path: &String, list: &Vec<String>) -> (r: bool)
    ensures
        r == spec_playing(path@, list@),
{
    let mut k: usize = 0;
    while k < list.len()
        invariant
            k <= list@.len(),
            forall|j: int| 0 <= j < k ==> !spec_same_path((#[trigger] list@[j])@, path@),
        decreases list@.len() - k,
    {
        if same_path(list[k].as_str(), path.as_str()) {
            return true;
        }
        k = k + 1;
    }
    false
}

} // verus!
