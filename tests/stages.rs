use citation_check::{
    get_citation_difference, get_citations_bibliography, get_citations_document, Citations,
};

    #[test]
    fn test_get_citations_bibliography() {
        let testdata_json = r#"
    [
  {
    "id": ".2024",
    "accessed": {
      "date-parts": [
        [
          "2025",
          1,
          29
        ]
      ]
    },
    "citation-key": ".2024",
    "container-title": "JuristenZeitung",
    "container-title-short": "JZ",
    "DOI": "10.1628/jz-2024-0306",
    "ISSN": "0022-6882",
    "issue": "22",
    "issued": {
      "date-parts": [
        [
          "2024"
        ]
      ]
    },
    "language": "de",
    "page": "1007",
    "source": "DOI.org (Crossref)",
    "title": "Potenzial und Grenzen eines Einsatzes von Large Language Models in der öffentlichen Verwaltung",
    "type": "article-journal",
    "URL": "https://www.mohrsiebeck.com/10.1628/jz-2024-0306",
    "volume": "79"
  },
  {
    "id": ".2024a",
    "accessed": {
      "date-parts": [
        [
          "2025",
          1,
          29
        ]
      ]
    },
    "citation-key": ".2024a",
    "container-title": "Archiv für die civilistische Praxis",
    "container-title-short": "AcP",
    "DOI": "10.1628/acp-2024-0020",
    "ISSN": "0003-8997",
    "issue": "4-5",
    "issued": {
      "date-parts": [
        [
          "2024"
        ]
      ]
    },
    "language": "de",
    "page": "477",
    "source": "DOI.org (Crossref)",
    "title": "Kryptowerte als Sachen",
    "type": "article-journal",
    "URL": "https://www.mohrsiebeck.com/10.1628/acp-2024-0020",
    "volume": "224"
  },
  {
    "id": "AGGelnhausen.2024",
    "authority": "AG Gelnhausen",
    "citation-key": "AGGelnhausen.2024",
    "genre": "Urt.",
    "issued": {
      "date-parts": [
        [
          "2024",
          3,
          4
        ]
      ]
    },
    "jurisdiction": "de",
    "number": "52 C 76/24",
    "title": "AG Gelnhausen, 04.03.2024 - 52 C 76/24",
    "type": "legal_case"
  },
  {
    "id": "Alexander.2024",
    "author": [
      {
        "family": "Alexander",
        "given": ""
      }
    ],
    "citation-key": "Alexander.2024",
    "container-title": "UWG",
    "edition": "42",
    "editor": [
      {
        "family": "Köhler",
        "given": ""
      },
      {
        "family": "Bornkamm",
        "given": ""
      },
      {
        "family": "Feddersen",
        "given": ""
      }
    ],
    "issued": {
      "date-parts": [
        [
          "2024"
        ]
      ]
    },
    "source": "beck-online",
    "title": "§ 2 GeschGehG",
    "type": "entry-encyclopedia"
  },
  {
    "id": "Alexander.2024a",
    "author": [
      {
        "family": "Alexander",
        "given": ""
      }
    ],
    "citation-key": "Alexander.2024a",
    "container-title": "UWG",
    "edition": "42",
    "editor": [
      {
        "family": "Köhler",
        "given": ""
      },
      {
        "family": "Bornkamm",
        "given": ""
      },
      {
        "family": "Feddersen",
        "given": ""
      }
    ],
    "issued": {
      "date-parts": [
        [
          "2024"
        ]
      ]
    },
    "source": "beck-online",
    "title": "§ 6 GeschGehG",
    "type": "entry-encyclopedia"
  }
  ]
 "#;
        let out = vec![
            Citations {
                citation_key: ".2024".to_string(),
            },
            Citations {
                citation_key: ".2024a".to_string(),
            },
            Citations {
                citation_key: "AGGelnhausen.2024".to_string(),
            },
            Citations {
                citation_key: "Alexander.2024".to_string(),
            },
            Citations {
                citation_key: "Alexander.2024a".to_string(),
            },
        ];
        assert_eq!(get_citations_bibliography(testdata_json).unwrap(), out);
    }

    #[test]
    fn test_get_citations_bibliography_missing_field() {
        let testdata_json = r#"[{}]"#; // Missing citation-key
        let result = get_citations_bibliography(testdata_json);
        assert!(result.is_err());
    }

    #[test]
    fn test_get_citations_document() {
        let testdata_md = r#"Gemeinsame Voraussetzung beider Schranken ist zunächst, dass der
Zugang zu den Daten rechtmäßig erfolgt.[@Bomhard.2024b Rn. 15] Dieser
kann etwa auf einer dahingegenden Lizenz beruhen (welche aber etwa
kein TDM zulässt) oder auch auf einer Einwilligung der:des
Berechtigten. Eine solche kann sich (konkludent) durch öffentliche
Zugänglichmachung im Internet ergeben.[@BGH.2024 Rn. 45--47;
@BGH.2010c Rn. 36; so auch @LGHamburg.2024 Rn. 86] Das wird meist der
Fall sein, zumindest, was den Zugang zu den Daten betrifft. @Alexander.2024; @Alexander.2024a
"#;
        assert_eq!(
            get_citations_document(testdata_md).unwrap(),
            vec![
                "Bomhard.2024b",
                "BGH.2024",
                "BGH.2010c",
                "LGHamburg.2024",
                "Alexander.2024",
                "Alexander.2024a"
            ]
        );
    }

    #[test]
    fn test_get_citations_document_invalid_format() {
        let testdata_md = "Here is a citation @key.1991 and another @key.2002. Invalid @key.";
        let result = get_citations_document(testdata_md).unwrap();
        assert_eq!(result.len(), 2); // Should still extract key1 and key2
        assert_eq!(result[0], "key.1991");
        assert_eq!(result[1], "key.2002");
    }

    #[test]
    fn test_get_citation_difference() {
        let json: Vec<Citations> = vec![
            Citations {
                citation_key: ".2024".to_string(),
            },
            Citations {
                citation_key: ".2024a".to_string(),
            },
            Citations {
                citation_key: "AGGelnhausen.2024".to_string(),
            },
            Citations {
                citation_key: "Alexander.2024".to_string(),
            },
            Citations {
                citation_key: "Alexander.2024a".to_string(),
            },
        ];
        let md = vec![
            "Bomhard.2024b",
            "BGH.2024",
            "BGH.2010c",
            "LGHamburg.2024",
            "Alexander.2024",
            "Alexander.2024a",
        ];
        let out = vec![
            Citations {
                citation_key: ".2024".to_string(),
            },
            Citations {
                citation_key: ".2024a".to_string(),
            },
            Citations {
                citation_key: "AGGelnhausen.2024".to_string(),
            },
        ];
        // Expected output
        // inputs (steal from the prints)
        assert_eq!(get_citation_difference(md, json).unwrap(), out)
    }
    #[test]
    fn test_get_citation_difference_empty() {
        let document_citations: Vec<&str> = vec![];
        let json_citations = vec![
            Citations {
                citation_key: "key1".to_string(),
            },
            Citations {
                citation_key: "key2".to_string(),
            },
        ];

        let result = get_citation_difference(document_citations, json_citations).unwrap();

        assert_eq!(result.len(), 2);
        assert_eq!(result[0].citation_key, "key1");
        assert_eq!(result[1].citation_key, "key2");
    }

    #[test]
    fn test_get_citation_difference_all_match() {
        let document_citations = vec!["key1", "key2"];
        let json_citations = vec![
            Citations {
                citation_key: "key1".to_string(),
            },
            Citations {
                citation_key: "key2".to_string(),
            },
        ];

        let result = get_citation_difference(document_citations, json_citations).unwrap();
        assert_eq!(result.len(), 0); // No differences
    }

    #[test]
    fn test_get_citation_difference_duplicates_in_document() {
        let document_citations = vec!["key1", "key1", "key3"];
        let json_citations = vec![
            Citations {
                citation_key: "key1".to_string(),
            },
            Citations {
                citation_key: "key2".to_string(),
            },
            Citations {
                citation_key: "key3".to_string(),
            },
        ];

        let result = get_citation_difference(document_citations, json_citations).unwrap();
        assert_eq!(result.len(), 1);
        assert_eq!(result[0].citation_key, "key2"); // key2 should still be the only difference
    }

    #[test]
    fn test_get_citation_difference_empty_document() {
        let document_citations: Vec<&str> = vec![];
        let json_citations = vec![
            Citations {
                citation_key: "key1".to_string(),
            },
            Citations {
                citation_key: "key2".to_string(),
            },
        ];

        let result = get_citation_difference(document_citations, json_citations).unwrap();
        assert_eq!(result.len(), 2);
        assert_eq!(result[0].citation_key, "key1");
    }
