//! The query documents, one for each search the service offers.

use vstd::prelude::*;

verus! {

/// The query document of an anime search.
pub const ANIMES_QUERY: &'static str = r#"
  query SearchAnimes($search: String, $limit: Int, $kind: AnimeKindString) {
    animes(search: $search, limit: $limit, kind: $kind) {
      id
      malId
      name
      russian
      licenseNameRu
      english
      japanese
      synonyms
      kind
      rating
      score
      status
      episodes
      episodesAired
      duration
      airedOn {
        year
        month
        day
        date
      }
      releasedOn {
        year
        month
        day
        date
      }
      url
      season
      poster {
        id
        originalUrl
        mainUrl
      }
      fansubbers
      fandubbers
      licensors
      createdAt
      updatedAt
      nextEpisodeAt
      isCensored
      genres {
        id
        name
        russian
        kind
      }
      studios {
        id
        name
        imageUrl
      }
      externalLinks {
        id
        kind
        url
        createdAt
        updatedAt
      }
      personRoles {
        id
        rolesRu
        rolesEn
        person {
          id
          name
          poster {
            id
          }
        }
      }
      characterRoles {
        id
        rolesRu
        rolesEn
        character {
          id
          name
          poster {
            id
          }
        }
      }
      related {
        id
        anime {
          id
          name
        }
        manga {
          id
          name
        }
        relationKind
        relationText
      }
      videos {
        id
        url
        name
        kind
        playerUrl
        imageUrl
      }
      screenshots {
        id
        originalUrl
        x166Url
        x332Url
      }
      scoresStats {
        score
        count
      }
      statusesStats {
        status
        count
      }
      description
      descriptionHtml
      descriptionSource
    }
  }
"#;

/// The query document of a manga search that filters by kind.
pub const MANGAS_QUERY: &'static str = r#"
  query SearchMangas($search: String, $limit: Int, $kind: MangaKindString) {
    mangas(search: $search, limit: $limit, kind: $kind) {
      id
      malId
      name
      russian
      licenseNameRu
      english
      japanese
      synonyms
      kind
      score
      status
      volumes
      chapters
      airedOn {
        year
        month
        day
        date
      }
      releasedOn {
        year
        month
        day
        date
      }
      url
      poster {
        id
        originalUrl
        mainUrl
      }
      licensors
      createdAt
      updatedAt
      isCensored
      genres {
        id
        name
        russian
        kind
      }
      publishers {
        id
        name
      }
      externalLinks {
        id
        kind
        url
        createdAt
        updatedAt
      }
      personRoles {
        id
        rolesRu
        rolesEn
        person {
          id
          name
          poster {
            id
          }
        }
      }
      characterRoles {
        id
        rolesRu
        rolesEn
        character {
          id
          name
          poster {
            id
          }
        }
      }
      related {
        id
        anime {
          id
          name
        }
        manga {
          id
          name
        }
        relationKind
        relationText
      }
      scoresStats {
        score
        count
      }
      statusesStats {
        status
        count
      }
      description
      descriptionHtml
      descriptionSource
    }
  }
"#;

/// The query document of a manga search of every kind: [`MANGAS_QUERY`]
/// without the variable `kind` and without its use.
pub const MANGAS_QUERY_ANY_KIND: &'static str = r#"
  query SearchMangas($search: String, $limit: Int, ) {
    mangas(search: $search, limit: $limit) {
      id
      malId
      name
      russian
      licenseNameRu
      english
      japanese
      synonyms
      kind
      score
      status
      volumes
      chapters
      airedOn {
        year
        month
        day
        date
      }
      releasedOn {
        year
        month
        day
        date
      }
      url
      poster {
        id
        originalUrl
        mainUrl
      }
      licensors
      createdAt
      updatedAt
      isCensored
      genres {
        id
        name
        russian
        kind
      }
      publishers {
        id
        name
      }
      externalLinks {
        id
        kind
        url
        createdAt
        updatedAt
      }
      personRoles {
        id
        rolesRu
        rolesEn
        person {
          id
          name
          poster {
            id
          }
        }
      }
      characterRoles {
        id
        rolesRu
        rolesEn
        character {
          id
          name
          poster {
            id
          }
        }
      }
      related {
        id
        anime {
          id
          name
        }
        manga {
          id
          name
        }
        relationKind
        relationText
      }
      scoresStats {
        score
        count
      }
      statusesStats {
        status
        count
      }
      description
      descriptionHtml
      descriptionSource
    }
  }
"#;

/// The query document of a search for people.
pub const PEOPLE_QUERY: &'static str = r#"
  query SearchPeople($search: String, $limit: Int) {
    people(search: $search, limit: $limit) {
      id
      malId
      name
      russian
      japanese
      synonyms
      url
      isSeyu
      isMangaka
      isProducer
      website
      createdAt
      updatedAt
      birthOn {
        year
        month
        day
        date
      }
      deceasedOn {
        year
        month
        day
        date
      }
      poster {
        id
        originalUrl
        mainUrl
      }
    }
  }
"#;

/// The query document of a search for characters by page.
pub const CHARACTERS_QUERY: &'static str = r#"
  query SearchCharacters($page: Int, $limit: Int) {
    characters(page: $page, limit: $limit) {
      id
      malId
      name
      russian
      japanese
      synonyms
      url
      createdAt
      updatedAt
      isAnime
      isManga
      isRanobe
      poster {
        id
        originalUrl
        mainUrl
      }
      description
      descriptionHtml
      descriptionSource
    }
  }
"#;

/// The query document of a lookup of characters by their ids.
pub const CHARACTERS_BY_IDS_QUERY: &'static str = r#"
  query GetCharactersByIds($ids: [ID!]) {
    characters(ids: $ids) {
      id
      name
    }
  }
"#;

/// The query document of a search for user rates.
pub const USER_RATES_QUERY: &'static str = r#"
  query SearchUserRates($page: Int, $limit: Int, $targetType: TargetType, $order: UserRateOrder) {
    userRates(page: $page, limit: $limit, targetType: $targetType, order: $order) {
      id
      anime {
        id
        name
      }
      manga {
        id
        name
      }
      createdAt
    }
  }
"#;

} // verus!
