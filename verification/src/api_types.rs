//! Plain data types of the exchange's sports API: the enumerations and
//! record types that typed requests and responses are built from, and the
//! parameter records of the endpoints the client exposes.
//!
//! These are carried through the session layer untouched; the wire encoding
//! lives with the transport, outside the verified core.  Field names follow
//! the remote service's own spelling.

#![allow(non_camel_case_types)]
#![allow(non_snake_case)]

use vstd::prelude::*;

verus! {

pub type MarketType = String;

pub type Venue = String;

pub type MarketId = String;

pub type EventTypeId = String;

pub type CountryCode = String;

pub type CompetitionId = String;

#[derive(Debug, Clone, Copy, PartialEq, Eq, Structural)]
pub enum MarketProjection {
    COMPETITION,
    EVENT,
    EVENT_TYPE,
    MARKET_START_TIME,
    MARKET_DESCRIPTION,
    RUNNER_DESCRIPTION,
    RUNNER_METADATA,
}

#[derive(Debug, Clone, Copy, PartialEq, Eq, Structural)]
pub enum PriceData {
    SP_AVAILABLE,
    SP_TRADED,
    EX_BEST_OFFERS,
    EX_ALL_OFFERS,
    EX_TRADED,
}

#[derive(Debug, Clone, Copy, PartialEq, Eq, Structural)]
pub enum MatchProjection {
    NO_ROLLUP,
    ROLLED_UP_BY_PRICE,
    ROLLED_UP_BY_AVG_PRICE,
}

#[derive(Debug, Clone, Copy, PartialEq, Eq, Structural)]
pub enum OrderProjection {
    ALL,
    EXECUTABLE,
    EXECUTION_COMPLETE,
}

#[derive(Debug, Clone, Copy, PartialEq, Eq, Structural)]
pub enum MarketStatus {
    INACTIVE,
    OPEN,
    SUSPENDED,
    CLOSED,
}

#[derive(Debug, Clone, Copy, PartialEq, Eq, Structural)]
pub enum RunnerStatus {
    ACTIVE,
    WINNER,
    LOSER,
    REMOVED_VACANT,
    REMOVED,
    PLACED,
}

#[derive(Debug, Clone, Copy, PartialEq, Eq, Structural)]
pub enum TimeGranularity {
    DAYS,
    HOURS,
    MINUTES,
}

#[derive(Debug, Clone, Copy, PartialEq, Eq, Structural)]
pub enum Side {
    BACK,
    LAY,
}

#[derive(Debug, Clone, Copy, PartialEq, Eq, Structural)]
pub enum OrderStatus {
    PENDING,
    EXECUTION_COMPLETE,
    EXECUTABLE,
    EXPIRED,
}

#[derive(Debug, Clone, Copy, PartialEq, Eq, Structural)]
pub enum OrderBy {
    BY_BET,
    BY_MARKET,
    BY_PLACE_TIME,
    BY_MATCH_TIME,
    BY_VOID_TIME,
    BY_SETTLED_TIME,
}

#[derive(Debug, Clone, Copy, PartialEq, Eq, Structural)]
pub enum SortDir {
    EARLIEST_TO_LATEST,
    LATEST_TO_EARLIEST,
}

#[derive(Debug, Clone, Copy, PartialEq, Eq, Structural)]
pub enum OrderType {
    LIMIT,
    LIMIT_ON_CLOSE,
    MARKET_ON_CLOSE,
}

#[derive(Debug, Clone, Copy, PartialEq, Eq, Structural)]
pub enum MarketSort {
    MINIMUM_TRADED,
    MAXIMUM_TRADED,
    MINIMUM_AVAILABLE,
    MAXIMUM_AVAILABLE,
    FIRST_TO_START,
    LAST_TO_START,
}

#[derive(Debug, Clone, Copy, PartialEq, Eq, Structural)]
pub enum MarketBettingType {
    ODDS,
    LINE,
    RANGE,
    ASIAN_HANDICAP_DOUBLE_LINE,
    ASIAN_HANDICAP_SINGLE_LINE,
    FIXED_ODDS,
}

#[derive(Debug, Clone, Copy, PartialEq, Eq, Structural)]
pub enum ExecutionReportStatus {
    SUCCESS,
    FAILURE,
    PROCESSED_WITH_ERRORS,
    TIMEOUT,
}

#[derive(Debug, Clone, Copy, PartialEq, Eq, Structural)]
pub enum ExecutionReportErrorCode {
    ERROR_IN_MATCHER,
    PROCESSED_WITH_ERRORS,
    BET_ACTION_ERROR,
    INVALID_ACCOUNT_STATE,
    INVALID_WALLET_STATUS,
    INSUFFICIENT_FUNDS,
    LOSS_LIMIT_EXCEEDED,
    MARKET_SUSPENDED,
    MARKET_NOT_OPEN_FOR_BETTING,
    DUPLICATE_TRANSACTION,
    INVALID_ORDER,
    INVALID_MARKET_ID,
    PERMISSION_DENIED,
    DUPLICATE_BETIDS,
    NO_ACTION_REQUIRED,
    SERVICE_UNAVAILABLE,
    REJECTED_BY_REGULATOR,
    NO_CHASING,
    REGULATOR_IS_NOT_AVAILABLE,
    TOO_MANY_INSTRUCTIONS,
    INVALID_MARKET_VERSION,
    EVENT_EXPOSURE_LIMIT_EXCEEDED,
    EVENT_MATCHED_EXPOSURE_LIMIT_EXCEEDED,
    EVENT_BLOCKED,
}

#[derive(Debug, Clone, Copy, PartialEq, Eq, Structural)]
pub enum PersistenceType {
    LAPSE,
    PERSIST,
    MARKET_ON_CLOSE,
}

#[derive(Debug, Clone, Copy, PartialEq, Eq, Structural)]
pub enum InstructionReportStatus {
    SUCCESS,
    FAILURE,
    TIMEOUT,
}

#[derive(Debug, Clone, Copy, PartialEq, Eq, Structural)]
pub enum InstructionReportErrorCode {
    INVALID_BET_SIZE,
    INVALID_RUNNER,
    BET_TAKEN_OR_LAPSED,
    BET_IN_PROGRESS,
    RUNNER_REMOVED,
    MARKET_NOT_OPEN_FOR_BETTING,
    LOSS_LIMIT_EXCEEDED,
    MARKET_NOT_OPEN_FOR_BSP_BETTING,
    INVALID_PRICE_EDIT,
    INVALID_ODDS,
    INSUFFICIENT_FUNDS,
    INVALID_PERSISTENCE_TYPE,
    ERROR_IN_MATCHER,
    INVALID_BACK_LAY_COMBINATION,
    ERROR_IN_ORDER,
    INVALID_BID_TYPE,
    INVALID_BET_ID,
    CANCELLED_NOT_PLACED,
    RELATED_ACTION_FAILED,
    NO_ACTION_REQUIRED,
    INVALID_MIN_FILL_SIZE,
    INVALID_CUSTOMER_ORDER_REF,
    TIME_IN_FORCE_CONFLICT,
    UNEXPECTED_PERSISTENCE_TYPE,
    INVALID_ORDER_TYPE,
    UNEXPECTED_MIN_FILL_SIZE,
    INVALID_CUSTOMER_STRATEGY_REF,
    BET_LAPSED_PRICE_IMPROVEMENT_TOO_LARGE,
}

#[derive(Debug, Clone, Copy, PartialEq, Eq, Structural)]
pub enum RollupModel {
    STAKE,
    PAYOUT,
    MANAGED_LIABILITY,
    NONE,
}

#[derive(Debug, Clone, Copy, PartialEq, Eq, Structural)]
pub enum GroupBy {
    EVENT_TYPE,
    EVENT,
    MARKET,
    RUNNER,
    SIDE,
    BET,
    STRATEGY,
}

#[derive(Debug, Clone, Copy, PartialEq, Eq, Structural)]
pub enum BetStatus {
    SETTLED,
    VOIDED,
    LAPSED,
    CANCELLED,
}

#[derive(Debug, Clone, Copy, PartialEq, Eq, Structural)]
pub enum TimeInForce {
    FILL_OR_KILL,
}

#[derive(Debug, Clone, Copy, PartialEq, Eq, Structural)]
pub enum BetTargetType {
    PAYOUT,
    BACKERS_PROFIT,
}

#[derive(Debug, Clone, Copy, PartialEq, Eq, Structural)]
pub enum PriceLadderType {
    CLASSIC,
    FINEST,
    LINE_RANGE,
}

#[derive(Debug, Clone, Copy, PartialEq, Eq, Structural)]
pub enum MarketGroupType {
    EVENT,
}

#[derive(Debug, Clone, Copy, PartialEq, Eq, Structural)]
pub enum LimitBreachActionType {
    REJECT_BETS,
    STOP_BETTING,
    TEAR_DOWN_MARKET_GROUP,
}

/// Competition
#[derive(Debug, Clone, PartialEq, Eq)]
pub struct Competition {
    pub id: Option<CompetitionId>,
    pub name: Option<String>,
}

/// Competition Result
#[derive(Debug, Clone, PartialEq, Eq)]
pub struct CompetitionResult {
    pub competition: Option<Competition>,
    pub marketCount: Option<i32>,
    pub competitionRegion: Option<String>,
}

/// EventType
#[derive(Debug, Clone, PartialEq, Eq)]
pub struct EventType {
    pub id: Option<EventTypeId>,
    pub name: Option<String>,
}

/// EventType Result
#[derive(Debug, Clone, PartialEq, Eq)]
pub struct EventTypeResult {
    pub eventType: Option<EventType>,
    pub marketCount: Option<i32>,
}

/// MarketType Result
#[derive(Debug, Clone, PartialEq, Eq)]
pub struct MarketTypeResult {
    pub marketType: Option<MarketType>,
    pub marketCount: Option<i32>,
}

/// CountryCode Result
#[derive(Debug, Clone, PartialEq, Eq)]
pub struct CountryCodeResult {
    pub countryCode: Option<CountryCode>,
    pub marketCount: Option<i32>,
}

/// Venue Result
#[derive(Debug, Clone, PartialEq, Eq)]
pub struct VenueResult {
    pub venue: Option<Venue>,
    pub marketCount: Option<i32>,
}

/// Market version
#[derive(Debug, Clone, PartialEq, Eq)]
pub struct MarketVersion {
    pub version: Option<i64>,
}

/// Market Licence
#[derive(Debug, Clone, PartialEq, Eq)]
pub struct MarketLicence {
    pub wallet: String,
    pub rules: Option<String>,
    pub rulesHasDate: Option<bool>,
    pub clarifications: Option<String>,
}

/// Instruction to update a LIMIT bet's persistence, which does not affect
/// exposure
#[derive(Debug, Clone, PartialEq, Eq)]
pub struct UpdateInstruction {
    pub betId: String,
    pub newPersistenceType: PersistenceType,
}

#[derive(Debug, Clone, PartialEq, Eq)]
pub struct UpdateExecutionReport {
    pub customerRef: Option<String>,
    pub status: String,
    pub errorCode: Option<String>,
    pub marketId: Option<MarketId>,
    pub instructionReports: Option<Vec<UpdateInstructionReport>>,
}

#[derive(Debug, Clone, PartialEq, Eq)]
pub struct UpdateInstructionReport {
    pub status: String,
    pub errorCode: Option<String>,
    pub instruction: UpdateInstruction,
}

/// Description of the price ladder type and any related data
#[derive(Debug, Clone, PartialEq, Eq)]
pub struct PriceLadderDescription {
    pub ladderType: PriceLadderType,
}

/// Container type for a market group identifier
#[derive(Debug, Clone, PartialEq, Eq)]
pub struct MarketGroupId {
    pub eventId: Option<i64>,
}

/// A market group
#[derive(Debug, Clone, PartialEq, Eq)]
pub struct MarketGroup {
    pub groupType: MarketGroupType,
    pub id: MarketGroupId,
}

/// Action to execute when an exposure limit is breached
#[derive(Debug, Clone, PartialEq, Eq)]
pub struct LimitBreachAction {
    pub actionType: LimitBreachActionType,
}

/// Parameters of the updateOrders endpoint
#[derive(Debug, Clone, PartialEq, Eq)]
pub struct updateOrdersRequest {
    pub marketId: MarketId,
    pub instructions: Vec<UpdateInstruction>,
    pub customerRef: Option<String>,
}

/// Parameters of the listMarketProfitAndLoss endpoint
#[derive(Debug, Clone, PartialEq, Eq)]
pub struct listMarketProfitAndLossRequest {
    pub marketIds: Vec<MarketId>,
    pub includeSettledBets: Option<bool>,
    pub includeBspBets: Option<bool>,
    pub netOfCommission: Option<bool>,
}

/// Parameters of the removeDefaultExposureLimitForMarketGroups endpoint
#[derive(Debug, Clone, PartialEq, Eq)]
pub struct removeDefaultExposureLimitForMarketGroupsRequest {
    pub marketGroupType: MarketGroupType,
}

/// Parameters of the removeExposureLimitForMarketGroup endpoint
#[derive(Debug, Clone, PartialEq, Eq)]
pub struct removeExposureLimitForMarketGroupRequest {
    pub marketGroup: MarketGroup,
}

/// Parameters of the listExposureLimitsForMarketGroups endpoint
#[derive(Debug, Clone, PartialEq, Eq)]
pub struct listExposureLimitsForMarketGroupsRequest {
    pub marketGroupTypeFilter: Option<MarketGroupType>,
    pub marketGroupFilter: Option<Vec<MarketGroup>>,
}

/// Parameters of the unblockMarketGroup endpoint
#[derive(Debug, Clone, PartialEq, Eq)]
pub struct unblockMarketGroupRequest {
    pub marketGroup: MarketGroup,
}

/// Parameters of the addExposureReuseEnabledEvents endpoint
#[derive(Debug, Clone, PartialEq, Eq)]
pub struct addExposureReuseEnabledEventsRequest {
    pub eventIds: Vec<i64>,
}

/// Parameters of the removeExposureReuseEnabledEvents endpoint
#[derive(Debug, Clone, PartialEq, Eq)]
pub struct removeExposureReuseEnabledEventsRequest {
    pub eventIds: Vec<i64>,
}

} // verus!
