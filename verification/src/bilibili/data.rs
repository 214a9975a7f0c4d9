//! The description of one video as the platform's metadata lookup returns it.

use vstd::prelude::*;

verus! {

/// One page (chapter) of a video.
#[derive(Debug)]
pub struct BiliBiliPageInfo {
    pub cid: u32,
    pub part: String,
    pub duration: u64,
}

/// Mathematical value of a [`BiliBiliPageInfo`].
pub ghost struct PageView {
    pub cid: u32,
    pub part: Seq<char>,
    pub duration: u64,
}

impl View for BiliBiliPageInfo {
    type V = PageView;

    open spec fn view(&self) -> PageView {
        PageView { cid: self.cid, part: self.part@, duration: self.duration }
    }
}

impl Clone for BiliBiliPageInfo {
    fn clone(&self) -> (copy: Self)
        ensures
            copy@ == self@,
    {
        BiliBiliPageInfo { cid: self.cid, part: self.part.clone(), duration: self.duration }
    }
}

/// One episode of a season: a page that belongs to a video of its own.
#[derive(Debug)]
pub struct Episode {
    pub bvid: String,
    pub page: BiliBiliPageInfo,
}

/// Mathematical value of an [`Episode`].
pub ghost struct EpisodeView {
    pub bvid: Seq<char>,
    pub page: PageView,
}

impl View for Episode {
    type V = EpisodeView;

    open spec fn view(&self) -> EpisodeView {
        EpisodeView { bvid: self.bvid@, page: self.page@ }
    }
}

impl Clone for Episode {
    fn clone(&self) -> (copy: Self)
        ensures
            copy@ == self@,
    {
        Episode { bvid: self.bvid.clone(), page: self.page.clone() }
    }
}

/// The values of a sequence of pages.
pub open spec fn pages_view(pages: Seq<BiliBiliPageInfo>) -> Seq<PageView> {
    pages.map_values(|p: BiliBiliPageInfo| p@)
}

/// The values of a sequence of episodes.
pub open spec fn episodes_view(episodes: Seq<Episode>) -> Seq<EpisodeView> {
    episodes.map_values(|e: Episode| e@)
}

/// The values of the sections of a season, each a sequence of episodes.
pub open spec fn sections_view(sections: Seq<Vec<Episode>>) -> Seq<Seq<EpisodeView>> {
    sections.map_values(|s: Vec<Episode>| episodes_view(s@))
}

/// All episodes of all sections, in order.
pub open spec fn all_episodes(sections: Seq<Seq<EpisodeView>>) -> Seq<EpisodeView>
    decreases sections.len(),
{
    if sections.len() == 0 {
        Seq::empty()
    } else {
        all_episodes(sections.drop_last()) + sections.last()
    }
}

/// Mathematical value of a [`BvidInfo`].
pub ghost struct BvidInfoView {
    pub title: Seq<char>,
    pub author: Seq<char>,
    pub pages: Seq<PageView>,
    pub sections: Option<Seq<Seq<EpisodeView>>>,
}

/// What the metadata lookup tells about one video: title, author, pages, and
/// the sections of the season it belongs to, if it belongs to one.
pub struct BvidInfo {
    title: String,
    author: String,
    pages: Vec<BiliBiliPageInfo>,
    sections: Option<Vec<Vec<Episode>>>,
}

impl View for BvidInfo {
    type V = BvidInfoView;

    closed spec fn view(&self) -> BvidInfoView {
        BvidInfoView {
            title: self.title@,
            author: self.author@,
            pages: pages_view(self.pages@),
            sections: match self.sections {
                Some(sections) => Some(sections_view(sections@)),
                None => None,
            },
        }
    }
}

impl BvidInfo {
    /// Builds the description of a video from the parts of a lookup response.
    pub fn new(
        title: String,
        author: String,
        pages: Vec<BiliBiliPageInfo>,
        sections: Option<Vec<Vec<Episode>>>,
    ) -> (info: Self)
        ensures
            info@ == (BvidInfoView {
                title: title@,
                author: author@,
                pages: pages_view(pages@),
                sections: match sections {
                    Some(s) => Some(sections_view(s@)),
                    None => None,
                },
            }),
    {
        BvidInfo { title, author, pages, sections }
    }

    /// The pages of the video, in order.
    pub fn get_pages(&self) -> (pages: &Vec<BiliBiliPageInfo>)
        ensures
            pages_view(pages@) == self@.pages,
    {
        &self.pages
    }

    /// The title of the video.
    pub fn get_titile(&self) -> (title: &String)
        ensures
            title@ == self@.title,
    {
        &self.title
    }

    /// The name of the video's owner.
    pub fn get_author(&self) -> (author: &String)
        ensures
            author@ == self@.author,
    {
        &self.author
    }

    /// The episodes of the season this video belongs to, section after
    /// section; `None` where the video belongs to no season.
    pub fn get_episodes(&self) -> (episodes: Option<Vec<Episode>>)
        ensures
            self@.sections is None ==> episodes is None,
            self@.sections is Some ==> episodes is Some && episodes_view(episodes.unwrap()@)
                == all_episodes(self@.sections.unwrap()),
    {
        match &self.sections {
            None => None,
            Some(sections) => {
                let ghost target = sections_view(sections@);
                let mut out: Vec<Episode> = Vec::new();
                let mut i: usize = 0;
                assert(target.take(0) =~= Seq::empty());
                assert(episodes_view(out@) =~= Seq::empty());
                while i < sections.len()
                    invariant
                        i <= sections.len(),
                        target == sections_view(sections@),
                        episodes_view(out@) == all_episodes(target.take(i as int)),
                    decreases sections.len() - i,
                {
                    let section = &sections[i];
                    let ghost before = out@;
                    let mut j: usize = 0;
                    assert(episodes_view(before) + episodes_view(section@).take(0)
                        =~= episodes_view(before));
                    while j < section.len()
                        invariant
                            j <= section.len(),
                            episodes_view(out@) == episodes_view(before) + episodes_view(
                                section@,
                            ).take(j as int),
                        decreases section.len() - j,
                    {
                        let ghost prev = out@;
                        let episode = section[j].clone();
                        out.push(episode);
                        proof {
                            assert(episodes_view(out@) =~= episodes_view(prev).push(episode@));
                            assert(episodes_view(section@).take(j + 1) =~= episodes_view(
                                section@,
                            ).take(j as int).push(section@[j as int]@));
                        }
                        j = j + 1;
                    }
                    proof {
                        assert(episodes_view(section@).take(j as int) =~= episodes_view(section@));
                        assert(target.take(i + 1).drop_last() =~= target.take(i as int));
                        assert(target.take(i + 1).last() == episodes_view(section@));
                    }
                    i = i + 1;
                }
                assert(target.take(i as int) =~= target);
                Some(out)
            },
        }
    }
}

/// One audio stream of a page, as the stream lookup returns it.
pub struct BiliBiliSong {
    pub base_url: String,
}

} // verus!
