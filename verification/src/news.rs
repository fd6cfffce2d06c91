//! The news item announcing a trade that went through: the requesting team
//! gets one per accepted proposal, told apart by the proposal id bound to
//! its title, however often the announcement is attempted.
use vstd::prelude::*;
use crate::money::{cash_amount_text, format_cash_amount};
use crate::payload::status_label_of;
use crate::commit::{count_of, lemma_plan_recorded_once, plan_count};
use crate::lifecycle::{accepted_view, apply_lifecycle_outcome, outcome_view, LifecycleOutcome};
use crate::proposal::{AsyncTradeProposal, AsyncTradeState, ProposalView};
use crate::registry::{same_elements, strictly_sorted, texts};
use crate::status::desired_squad_status;
use crate::text::{append_str, chars_eq, chars_of, string_of};

verus! {

/// A news item of a team, as far as trades read and write it.
#[derive(Debug, PartialEq, Eq)]
pub struct NewsItem {
    pub title: String,
    pub content: String,
    pub author: String,
    /// Key and value pairs bound to the title.
    pub title_bind: Vec<(String, String)>,
}

pub struct NewsItemV {
    pub title: Seq<char>,
    pub content: Seq<char>,
    pub author: Seq<char>,
    pub title_bind: Seq<(Seq<char>, Seq<char>)>,
}

impl View for NewsItem {
    type V = NewsItemV;

    open spec fn view(&self) -> NewsItemV {
        NewsItemV {
            title: self.title@,
            content: self.content@,
            author: self.author@,
            title_bind: self.title_bind@.map_values(|b: (String, String)| (b.0@, b.1@)),
        }
    }
}

/// The news of a team, item by item.
pub open spec fn news_view(news: Seq<NewsItem>) -> Seq<NewsItemV> {
    news.map_values(|n: NewsItem| n@)
}

/// The key under which a success news item carries its proposal's id.
pub open spec fn proposal_bind_key() -> Seq<char> {
    "PtsTradeProposalId"@
}

/// The bindings carry the proposal `id`.
pub open spec fn carries(binds: Seq<(Seq<char>, Seq<char>)>, id: Seq<char>) -> bool {
    exists|j: int| 0 <= j < binds.len() && #[trigger] binds[j] == (proposal_bind_key(), id)
}

/// How many items announce the proposal `id`.
pub open spec fn success_count(news: Seq<NewsItemV>, id: Seq<char>) -> nat
    decreases news.len(),
{
    if news.len() == 0 {
        0
    } else {
        success_count(news.drop_last(), id) + if carries(news.last().title_bind, id) {
            1nat
        } else {
            0nat
        }
    }
}

proof fn lemma_success_count_push(news: Seq<NewsItemV>, item: NewsItemV, id: Seq<char>)
    ensures
        success_count(news.push(item), id) == success_count(news, id) + if carries(item.title_bind, id) {
            1nat
        } else {
            0nat
        },
{
    assert(news.push(item).drop_last() =~= news);
}

fn carries_exec(binds: &Vec<(String, String)>, key: &[char], id: &[char]) -> (b: bool)
    requires
        key@ == proposal_bind_key(),
    ensures
        b == carries(binds@.map_values(|x: (String, String)| (x.0@, x.1@)), id@),
{
    let ghost v = binds@.map_values(|x: (String, String)| (x.0@, x.1@));
    let mut j: usize = 0;
    while j < binds.len()
        invariant
            j <= binds@.len(),
            key@ == proposal_bind_key(),
            v == binds@.map_values(|x: (String, String)| (x.0@, x.1@)),
            forall|i: int| 0 <= i < j ==> v[i] != (proposal_bind_key(), id@),
        decreases binds@.len() - j,
    {
        let k = chars_of(binds[j].0.as_str());
        let w = chars_of(binds[j].1.as_str());
        if chars_eq(k.as_slice(), key) && chars_eq(w.as_slice(), id) {
            assert(v[j as int] == (proposal_bind_key(), id@));
            return true;
        }
        j = j + 1;
    }
    false
}

/// The number of a team's news items that announce the proposal.
pub fn async_success_news_count(news: &Vec<NewsItem>, proposal_id: &str) -> (n: usize)
    ensures
        n == success_count(news_view(news@), proposal_id@),
{
    let key = chars_of("PtsTradeProposalId");
    let id = chars_of(proposal_id);
    let mut count: usize = 0;
    let mut i: usize = 0;
    while i < news.len()
        invariant
            i <= news@.len(),
            count <= i,
            key@ == proposal_bind_key(),
            id@ == proposal_id@,
            count == success_count(news_view(news@).take(i as int), proposal_id@),
        decreases news@.len() - i,
    {
        assert(news_view(news@).take(i + 1) =~= news_view(news@).take(i as int).push(news@[i as int]@));
        proof {
            lemma_success_count_push(news_view(news@).take(i as int), news@[i as int]@, proposal_id@);
        }
        if carries_exec(&news[i].title_bind, key.as_slice(), id.as_slice()) {
            count = count + 1;
        }
        i = i + 1;
    }
    assert(news_view(news@).take(i as int) =~= news_view(news@));
    count
}

/// The announcement's text.
pub open spec fn success_news_text(
    requester_name: Seq<char>,
    recipient_name: Seq<char>,
    p: AsyncTradeProposal,
) -> Seq<char> {
    requester_name + " 구단과 "@ + recipient_name + " 구단의 선수 트레이드가 성사되었습니다.\n\n"@ + requester_name
        + " 영입: "@ + p.target_name@ + "\n"@ + requester_name + " 방출: "@ + p.offered_name@ + "\n추가 지급액: "@
        + cash_amount_text(p.proposed_units as nat) + "\n약속 위상: "@ + status_label_of(p.desired_status_choice)
}

/// The announcement of the proposal's trade.
pub open spec fn success_news_spec(requester_name: Seq<char>, recipient_name: Seq<char>, p: AsyncTradeProposal) -> NewsItemV {
    NewsItemV {
        title: "선수 트레이드 성사"@,
        content: success_news_text(requester_name, recipient_name, p),
        author: "Player Trade System"@,
        title_bind: seq![(proposal_bind_key(), p.proposal_id@)],
    }
}

/// The announcement of an accepted proposal's trade, to add to the
/// requesting team's news.
pub fn success_news(p: &AsyncTradeProposal, requester_name: &str, recipient_name: &str) -> (n: NewsItem)
    ensures
        n@ == success_news_spec(requester_name@, recipient_name@, *p),
{
    let mut c: Vec<char> = Vec::new();
    append_str(&mut c, requester_name);
    append_str(&mut c, " 구단과 ");
    append_str(&mut c, recipient_name);
    append_str(&mut c, " 구단의 선수 트레이드가 성사되었습니다.\n\n");
    append_str(&mut c, requester_name);
    append_str(&mut c, " 영입: ");
    append_str(&mut c, p.target_name.as_str());
    append_str(&mut c, "\n");
    append_str(&mut c, requester_name);
    append_str(&mut c, " 방출: ");
    append_str(&mut c, p.offered_name.as_str());
    append_str(&mut c, "\n추가 지급액: ");
    append_str(&mut c, format_cash_amount(p.proposed_units).as_str());
    append_str(&mut c, "\n약속 위상: ");
    append_str(&mut c, desired_squad_status(p.desired_status_choice).1);
    assert(c@ =~= success_news_text(requester_name@, recipient_name@, *p));
    let mut binds: Vec<(String, String)> = Vec::new();
    binds.push((string_of(chars_of("PtsTradeProposalId").as_slice()), p.proposal_id.clone()));
    let n = NewsItem {
        title: string_of(chars_of("선수 트레이드 성사").as_slice()),
        content: string_of(c.as_slice()),
        author: string_of(chars_of("Player Trade System").as_slice()),
        title_bind: binds,
    };
    assert(n@.title_bind =~= seq![(proposal_bind_key(), p.proposal_id@)]);
    n
}

/// Why the announcement is refused: the news does not hold exactly one item
/// for the proposal.
#[derive(Clone, Copy, Debug, PartialEq, Eq, Structural)]
pub enum NewsError {
    CountNotOne(usize),
}

/// The news after announcing, and what the announcement answers: whether an
/// item was added and the count, which must be one.
pub open spec fn ensure_news_spec(
    news: Seq<NewsItemV>,
    requester_name: Seq<char>,
    recipient_name: Seq<char>,
    p: AsyncTradeProposal,
) -> (Seq<NewsItemV>, Result<(bool, nat), nat>) {
    let before = success_count(news, p.proposal_id@);
    let after_news = if before == 0 {
        news.push(success_news_spec(requester_name, recipient_name, p))
    } else {
        news
    };
    let after = success_count(after_news, p.proposal_id@);
    (after_news, if after == 1 { Ok((before == 0, 1nat)) } else { Err(after) })
}

/// Announces the trade of an accepted proposal: adds the item unless one
/// already carries the proposal's id, then checks that exactly one does.
pub fn ensure_async_success_news(
    news: &mut Vec<NewsItem>,
    p: &AsyncTradeProposal,
    requester_name: &str,
    recipient_name: &str,
) -> (r: Result<(bool, usize), NewsError>)
    ensures
        news_view(final(news)@) == ensure_news_spec(news_view(old(news)@), requester_name@, recipient_name@, *p).0,
        match ensure_news_spec(news_view(old(news)@), requester_name@, recipient_name@, *p).1 {
            Ok((added, n)) => r == Ok::<(bool, usize), NewsError>((added, n as usize)),
            Err(n) => r == Err::<(bool, usize), NewsError>(NewsError::CountNotOne(n as usize)),
        },
{
    let before = async_success_news_count(news, p.proposal_id.as_str());
    if before == 0 {
        let item = success_news(p, requester_name, recipient_name);
        let ghost old_view = news_view(news@);
        news.push(item);
        assert(news_view(news@) =~= old_view.push(success_news_spec(requester_name@, recipient_name@, *p)));
    }
    let after = async_success_news_count(news, p.proposal_id.as_str());
    if after != 1 {
        return Err(NewsError::CountNotOne(after));
    }
    Ok((before == 0, 1))
}

/// An accepted proposal is announced once: after a successful announcement
/// exactly one item carries the proposal's id, it is the item added when
/// none did before, and announcing again adds nothing and answers that the
/// item was already there.
pub proof fn lemma_announced_once(
    news: Seq<NewsItemV>,
    requester_name: Seq<char>,
    recipient_name: Seq<char>,
    p: AsyncTradeProposal,
)
    ensures
        success_count(news, p.proposal_id@) <= 1 <==> ensure_news_spec(news, requester_name, recipient_name, p).1 is Ok,
        ensure_news_spec(news, requester_name, recipient_name, p).1 is Ok ==> {
            let after = ensure_news_spec(news, requester_name, recipient_name, p).0;
            &&& success_count(after, p.proposal_id@) == 1
            &&& ensure_news_spec(after, requester_name, recipient_name, p) == (
                after,
                Ok::<(bool, nat), nat>((false, 1nat)),
            )
        },
{
    let item = success_news_spec(requester_name, recipient_name, p);
    lemma_success_count_push(news, item, p.proposal_id@);
    assert(item.title_bind[0] == (proposal_bind_key(), p.proposal_id@));
}

/// An accepted proposal is recorded once: the proposal reads as accepted
/// with its plan, the registry that adding the plan gives holds that plan
/// exactly once, and after the announcement exactly one item of the
/// requesting team's news carries the proposal's id (when at most one did
/// before; more than one is refused).
pub proof fn lemma_accepted_trade_recorded_once(
    p: AsyncTradeProposal,
    completed_at: Seq<char>,
    plan: Seq<char>,
    commit_process_id: u32,
    registry: Seq<Seq<char>>,
    before: Seq<Seq<char>>,
    news: Seq<NewsItemV>,
    requester_name: Seq<char>,
    recipient_name: Seq<char>,
)
    requires
        strictly_sorted(registry),
        same_elements(registry, before.push(plan)),
        success_count(news, p.proposal_id@) <= 1,
    ensures
        ({
            let q = accepted_view(p@, completed_at, plan, commit_process_id);
            &&& q.state == AsyncTradeState::Accepted
            &&& q.proposal_id == p.proposal_id@
            &&& count_of(registry, q.result_plan_id) == 1
            &&& success_count(ensure_news_spec(news, requester_name, recipient_name, p).0, q.proposal_id) == 1
        }),
{
    lemma_plan_recorded_once(registry, before, plan);
    lemma_announced_once(news, requester_name, recipient_name, p);
}

/// The outcome fits the proposal's stage: the seller's review ends in a
/// rejection or the player's review, the player's review in a rejection or
/// the commit.
pub open spec fn step_fits(state: AsyncTradeState, o: LifecycleOutcome) -> bool {
    match o {
        LifecycleOutcome::Rejected { .. } => state == AsyncTradeState::SellerReview || state
            == AsyncTradeState::PlayerReview,
        LifecycleOutcome::PlayerReviewScheduled { .. } => state == AsyncTradeState::SellerReview,
        LifecycleOutcome::Committed { .. } => state == AsyncTradeState::PlayerReview,
    }
}

/// The plan of a commit.
pub open spec fn committed_plan(o: LifecycleOutcome) -> Option<Seq<char>> {
    match o {
        LifecycleOutcome::Committed { plan_id, .. } => Some(plan_id@),
        _ => None,
    }
}

/// Why a lifecycle step was not recorded.
#[derive(Debug, PartialEq, Eq)]
pub enum StepError {
    /// The outcome does not follow from the proposal's stage.
    OutOfStep,
    /// The committed plan is not in the registry exactly once.
    PlanNotRecordedOnce(usize),
    /// The news does not hold exactly one announcement.
    News(NewsError),
}

/// Records one step of a stored proposal's life, with the stored registry
/// and the requesting team's news: the proposal moves on one step, and a
/// commit is accepted only with its plan recorded once in the registry and
/// exactly one announcement in the news.  A step that is refused leaves the
/// proposal and the news as they were.
pub fn record_lifecycle_step(
    p: &mut AsyncTradeProposal,
    registry: &[String],
    news: &mut Vec<NewsItem>,
    o: LifecycleOutcome,
    requester_name: &str,
    recipient_name: &str,
) -> (r: Result<(), StepError>)
    ensures
        !step_fits(old(p)@.state, o) ==> r == Err::<(), StepError>(StepError::OutOfStep),
        step_fits(old(p)@.state, o) && committed_plan(o) is Some && count_of(texts(registry@), committed_plan(o)->0)
            != 1 ==> r == Err::<(), StepError>(
            StepError::PlanNotRecordedOnce(count_of(texts(registry@), committed_plan(o)->0) as usize),
        ),
        step_fits(old(p)@.state, o) && committed_plan(o) is Some && count_of(texts(registry@), committed_plan(o)->0)
            == 1 ==> (r is Ok <==> success_count(news_view(old(news)@), old(p)@.proposal_id) <= 1),
        step_fits(old(p)@.state, o) && committed_plan(o) is None ==> r is Ok,
        r is Err ==> final(p)@ == old(p)@ && news_view(final(news)@) == news_view(old(news)@),
        r is Ok ==> {
            &&& final(p)@ == outcome_view(old(p)@, o)
            &&& committed_plan(o) is None ==> news_view(final(news)@) == news_view(old(news)@)
            &&& committed_plan(o) matches Some(plan) ==> {
                &&& final(p)@.state == AsyncTradeState::Accepted
                &&& final(p)@.result_plan_id == plan
                &&& count_of(texts(registry@), final(p)@.result_plan_id) == 1
                &&& success_count(news_view(final(news)@), final(p)@.proposal_id) == 1
            }
        },
{
    let fits = match &o {
        LifecycleOutcome::Rejected { .. } => p.state == AsyncTradeState::SellerReview || p.state
            == AsyncTradeState::PlayerReview,
        LifecycleOutcome::PlayerReviewScheduled { .. } => p.state == AsyncTradeState::SellerReview,
        LifecycleOutcome::Committed { .. } => p.state == AsyncTradeState::PlayerReview,
    };
    if !fits {
        return Err(StepError::OutOfStep);
    }
    if let LifecycleOutcome::Committed { plan_id, .. } = &o {
        let n = plan_count(registry, plan_id);
        if n != 1 {
            return Err(StepError::PlanNotRecordedOnce(n));
        }
        let ghost before = news_view(news@);
        proof {
            lemma_announced_once(before, requester_name@, recipient_name@, *p);
        }
        match ensure_async_success_news(news, p, requester_name, recipient_name) {
            Ok(_) => {},
            Err(e) => {
                return Err(StepError::News(e));
            },
        }
    }
    apply_lifecycle_outcome(p, o);
    Ok(())
}

/// A recorded step moves the stored proposal exactly one step on: from the
/// seller's review to the player's review or a rejection, from the player's
/// review to acceptance or a rejection, with one more transition counted
/// (the count saturates) and its id kept.
pub proof fn lemma_step_moves_one_forward(v: ProposalView, o: LifecycleOutcome)
    requires
        step_fits(v.state, o),
    ensures
        ({
            let w = outcome_view(v, o);
            &&& (v.state == AsyncTradeState::SellerReview && (w.state == AsyncTradeState::PlayerReview || w.state
                == AsyncTradeState::Rejected)) || (v.state == AsyncTradeState::PlayerReview && (w.state
                == AsyncTradeState::Accepted || w.state == AsyncTradeState::Rejected))
            &&& w.transition_count == (if v.transition_count < u32::MAX {
                (v.transition_count + 1) as u32
            } else {
                u32::MAX
            })
            &&& w.proposal_id == v.proposal_id
        }),
{
}

} // verus!
